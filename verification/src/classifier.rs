//! The change classifier: turns the diff between two consecutive index
//! commits into a classified change event, or a structural error.
//!
//! The diff is taken with zero context lines, so it holds changed lines only.
//! A qualifying commit touches one package file and carries exactly one added
//! record line and at most one removed record line; the removed line is the
//! package's previous state, the added line its next state.

use vstd::prelude::*;

use crate::krate::{parsed_record, record_view, Crate};

verus! {

/// Status of one changed file entry in the diff.
#[derive(Clone, Copy, Debug, PartialEq, Eq, Structural)]
pub enum FileStatus {
    Modified,
    Added,
    Other,
}

/// Origin of one diff line: removed (`-`), added (`+`), or anything else.
#[derive(Clone, Copy, Debug, PartialEq, Eq, Structural)]
pub enum LineOrigin {
    Removed,
    Added,
    Other,
}

/// One line of the diff between two consecutive commits, together with the
/// status of the file entry it belongs to and how many sides of the diff
/// carry that file.
#[derive(Debug)]
pub struct DiffLine {
    pub status: FileStatus,
    pub nfiles: u16,
    pub origin: LineOrigin,
    pub content: Vec<u8>,
}

/// What kind of change a commit pair carries.
#[derive(Clone, Copy, Debug, PartialEq, Eq, Structural)]
pub enum ActionKind {
    NewVersion,
    Retracted,
    Unretracted,
}

/// Why a commit pair failed to classify. All three are non-fatal: the commit
/// is skipped and the walk goes on.
#[derive(Clone, Copy, Debug, PartialEq, Eq, Structural)]
pub enum ClassifyError {
    /// The diff does not have the single-add, at-most-one-remove shape.
    MalformedCommit,
    /// A collected line is not a package record.
    ParseError,
    /// The recorded states do not form a known transition.
    UnexpectedTransition,
}

/// A classified change: the package's previous state where the diff removed a
/// line, its next state, and the derived kind of change.
#[derive(Debug)]
pub struct ChangeEvent {
    pub previous: Option<Crate>,
    pub next: Crate,
    pub action: ActionKind,
}

/// Only entries whose file is modified or added are considered; other
/// statuses are ignored.
pub open spec fn considered(l: DiffLine) -> bool {
    l.status is Modified || l.status is Added
}

/// A considered entry must carry the file on one or two sides of the diff.
pub open spec fn nfiles_ok(l: DiffLine) -> bool {
    l.nfiles == 1 || l.nfiles == 2
}

pub open spec fn all_nfiles_ok(s: Seq<DiffLine>) -> bool {
    forall|i: int| 0 <= i < s.len() && considered(#[trigger] s[i]) ==> nfiles_ok(s[i])
}

pub open spec fn is_added_line(l: DiffLine) -> bool {
    considered(l) && l.origin is Added
}

pub open spec fn is_removed_line(l: DiffLine) -> bool {
    considered(l) && l.origin is Removed
}

/// The contents of the added lines of considered entries, in order.
pub open spec fn added_in(s: Seq<DiffLine>) -> Seq<Seq<u8>>
    decreases s.len(),
{
    if s.len() == 0 {
        Seq::empty()
    } else {
        added_in(s.drop_last()) + if is_added_line(s.last()) {
            seq![s.last().content@]
        } else {
            Seq::empty()
        }
    }
}

/// The contents of the removed lines of considered entries, in order.
pub open spec fn removed_in(s: Seq<DiffLine>) -> Seq<Seq<u8>>
    decreases s.len(),
{
    if s.len() == 0 {
        Seq::empty()
    } else {
        removed_in(s.drop_last()) + if is_removed_line(s.last()) {
            seq![s.last().content@]
        } else {
            Seq::empty()
        }
    }
}

/// The structural shape a qualifying commit pair must have: sane file counts,
/// exactly one added line, at most one removed line.
pub open spec fn shape_ok(s: Seq<DiffLine>) -> bool {
    &&& all_nfiles_ok(s)
    &&& added_in(s).len() == 1
    &&& removed_in(s).len() <= 1
}

/// Both collected lines parse as package records.
pub open spec fn parses_ok(s: Seq<DiffLine>) -> bool
    recommends
        shape_ok(s),
{
    &&& parsed_record(added_in(s)[0]) is Some
    &&& (removed_in(s).len() == 1 ==> parsed_record(removed_in(s)[0]) is Some)
}

/// The yanked flag of the previous state, where the diff removed a line.
pub open spec fn spec_prev_yanked(s: Seq<DiffLine>) -> Option<bool>
    recommends
        shape_ok(s),
        parses_ok(s),
{
    if removed_in(s).len() == 1 {
        match parsed_record(removed_in(s)[0]) {
            Some(t) => Some(t.2),
            None => None,
        }
    } else {
        None
    }
}

/// Classification of a transition between recorded states: no previous state
/// and a live next state is a new version; live to yanked is a retraction;
/// yanked to live undoes one. Every other combination is unexpected.
pub open spec fn classify_flags(prev: Option<bool>, next: bool) -> Result<
    ActionKind,
    ClassifyError,
> {
    match (prev, next) {
        (None, false) => Ok(ActionKind::NewVersion),
        (Some(false), true) => Ok(ActionKind::Retracted),
        (Some(true), false) => Ok(ActionKind::Unretracted),
        _ => Err(ClassifyError::UnexpectedTransition),
    }
}

/// The action a well-shaped, well-parsed commit pair classifies to.
pub open spec fn spec_action(s: Seq<DiffLine>) -> Result<ActionKind, ClassifyError>
    recommends
        shape_ok(s),
        parses_ok(s),
{
    match parsed_record(added_in(s)[0]) {
        Some(t) => classify_flags(spec_prev_yanked(s), t.2),
        None => Err(ClassifyError::ParseError),
    }
}

/// Everything the classifier promises of its result: shape errors come first,
/// then parse errors, then the transition table; on success the event carries
/// the parsed states unchanged and the derived action.
pub open spec fn classifier_post(s: Seq<DiffLine>, r: Result<ChangeEvent, ClassifyError>) -> bool {
    &&& (!shape_ok(s) ==> r == Err::<ChangeEvent, ClassifyError>(ClassifyError::MalformedCommit))
    &&& (shape_ok(s) && !parses_ok(s) ==> r == Err::<ChangeEvent, ClassifyError>(
        ClassifyError::ParseError,
    ))
    &&& (shape_ok(s) && parses_ok(s) ==> match spec_action(s) {
        Err(e) => r == Err::<ChangeEvent, ClassifyError>(e),
        Ok(k) => {
            &&& r matches Ok(ev)
            &&& ev.action == k
            &&& parsed_record(added_in(s)[0]) == Some(record_view(ev.next))
            &&& (match ev.previous {
                Some(p) => removed_in(s).len() == 1 && parsed_record(removed_in(s)[0]) == Some(
                    record_view(p),
                ),
                None => removed_in(s).len() == 0,
            })
        },
    })
}

/// Classify a transition between a package's recorded yanked flags.
pub fn classify_transition(prev: Option<bool>, next: bool) -> (r: Result<
    ActionKind,
    ClassifyError,
>)
    ensures
        r == classify_flags(prev, next),
{
    match (prev, next) {
        (None, false) => Ok(ActionKind::NewVersion),
        (Some(false), true) => Ok(ActionKind::Retracted),
        (Some(true), false) => Ok(ActionKind::Unretracted),
        _ => Err(ClassifyError::UnexpectedTransition),
    }
}

/// Get the package update carried by the diff between two consecutive index
/// commits. Never panics: every malformed input is an error value.
pub fn diff_one(lines: &Vec<DiffLine>) -> (r: Result<ChangeEvent, ClassifyError>)
    ensures
        classifier_post(lines@, r),
{
    let n = lines.len();
    let mut ca: usize = 0;  // added lines seen
    let mut cr: usize = 0;  // removed lines seen
    let mut ia: usize = 0;  // index of the first added line, meaningful when ca > 0
    let mut ir: usize = 0;  // index of the first removed line, meaningful when cr > 0
    let mut nf_ok = true;
    let mut i: usize = 0;
    while i < n
        invariant
            i <= n,
            n == lines@.len(),
            ca <= i,
            cr <= i,
            ca == added_in(lines@.take(i as int)).len(),
            cr == removed_in(lines@.take(i as int)).len(),
            nf_ok == all_nfiles_ok(lines@.take(i as int)),
            ca > 0 ==> ia < i && is_added_line(lines@[ia as int]) && added_in(
                lines@.take(i as int),
            )[0] == lines@[ia as int].content@,
            cr > 0 ==> ir < i && is_removed_line(lines@[ir as int]) && removed_in(
                lines@.take(i as int),
            )[0] == lines@[ir as int].content@,
        decreases n - i,
    {
        proof {
            assert(lines@.take(i + 1).drop_last() =~= lines@.take(i as int));
            assert(lines@.take(i + 1).last() == lines@[i as int]);
        }
        let l = &lines[i];
        let is_considered = match l.status {
            FileStatus::Modified => true,
            FileStatus::Added => true,
            FileStatus::Other => false,
        };
        if is_considered {
            if !(l.nfiles == 1 || l.nfiles == 2) {
                nf_ok = false;
            }
            match l.origin {
                LineOrigin::Added => {
                    if ca == 0 {
                        ia = i;
                    }
                    ca += 1;
                }
                LineOrigin::Removed => {
                    if cr == 0 {
                        ir = i;
                    }
                    cr += 1;
                }
                LineOrigin::Other => {}
            }
        }
        proof {
            assert(all_nfiles_ok(lines@.take(i + 1)) == (all_nfiles_ok(lines@.take(i as int))
                && (considered(lines@[i as int]) ==> nfiles_ok(lines@[i as int])))) by {
                let t1 = lines@.take(i + 1);
                let t0 = lines@.take(i as int);
                if all_nfiles_ok(t0) && (considered(lines@[i as int]) ==> nfiles_ok(
                    lines@[i as int],
                )) {
                    assert forall|j: int|
                        0 <= j < t1.len() && considered(#[trigger] t1[j]) implies nfiles_ok(
                        t1[j],
                    ) by {
                        if j < i {
                            assert(t1[j] == t0[j]);
                        }
                    }
                }
                if all_nfiles_ok(t1) {
                    assert forall|j: int|
                        0 <= j < t0.len() && considered(#[trigger] t0[j]) implies nfiles_ok(
                        t0[j],
                    ) by {
                        assert(t0[j] == t1[j]);
                    }
                    assert(t1[i as int] == lines@[i as int]);
                }
            }
        }
        i += 1;
    }
    proof {
        assert(lines@.take(n as int) =~= lines@);
    }
    if !(nf_ok && ca == 1 && cr <= 1) {
        return Err(ClassifyError::MalformedCommit);
    }
    let next = match Crate::parse_record(&lines[ia].content) {
        Some(c) => c,
        None => {
            return Err(ClassifyError::ParseError);
        },
    };
    let previous = if cr == 1 {
        match Crate::parse_record(&lines[ir].content) {
            Some(c) => Some(c),
            None => {
                return Err(ClassifyError::ParseError);
            },
        }
    } else {
        None
    };
    let prev_yanked = match &previous {
        Some(c) => Some(c.yanked),
        None => None,
    };
    let action = match classify_transition(prev_yanked, next.yanked) {
        Ok(k) => k,
        Err(e) => {
            return Err(e);
        },
    };
    Ok(ChangeEvent { previous, next, action })
}

/// Law: a pair whose previous state is live and whose next state is yanked
/// classifies as a retraction, and the next state reaches the event
/// unchanged.
pub proof fn lemma_retraction_classified(s: Seq<DiffLine>, r: Result<ChangeEvent, ClassifyError>)
    requires
        classifier_post(s, r),
        shape_ok(s),
        removed_in(s).len() == 1,
        parsed_record(removed_in(s)[0]) matches Some(p) && p.2 == false,
        parsed_record(added_in(s)[0]) matches Some(nx) && nx.2 == true,
    ensures
        r matches Ok(ev) && ev.action == ActionKind::Retracted,
        r matches Ok(ev) ==> parsed_record(added_in(s)[0]) == Some(record_view(ev.next)),
{
}

/// Law: a pair with no removed line whose next state is live classifies as a
/// new version, with the next state unchanged.
pub proof fn lemma_new_version_classified(s: Seq<DiffLine>, r: Result<ChangeEvent, ClassifyError>)
    requires
        classifier_post(s, r),
        shape_ok(s),
        removed_in(s).len() == 0,
        parsed_record(added_in(s)[0]) matches Some(nx) && nx.2 == false,
    ensures
        r matches Ok(ev) && ev.action == ActionKind::NewVersion,
        r matches Ok(ev) ==> parsed_record(added_in(s)[0]) == Some(record_view(ev.next)),
{
}

/// Law: a pair that violates the single-add, at-most-one-remove shape — for
/// example one with two added lines — classifies as a malformed commit.
pub proof fn lemma_malformed_shape(s: Seq<DiffLine>, r: Result<ChangeEvent, ClassifyError>)
    requires
        classifier_post(s, r),
        !shape_ok(s),
    ensures
        r == Err::<ChangeEvent, ClassifyError>(ClassifyError::MalformedCommit),
{
}

} // verus!
