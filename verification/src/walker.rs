//! The index walker's decisions: which commit pairs to skip, and when the
//! local cursor may advance.
//!
//! The walker hands each qualifying pair's classification to the bridge and
//! advances its cursor past the pair only after the dispatcher has
//! acknowledged the event — so the cursor never runs ahead of notification
//! delivery, and at most one event is unacknowledged at any time. A pair is
//! advanced past exactly once, whether classification succeeded or failed.

use vstd::prelude::*;

use crate::bridge::Bridge;
use crate::classifier::{classifier_post, diff_one, ChangeEvent, ClassifyError, DiffLine};
use crate::util::{has_prefix, has_prefix_spec, str_eq, trim_end_newlines, trim_nl};

verus! {

/// The trusted automated publisher: only its commits carry package changes
/// the pipeline can analyze.
pub open spec fn trusted_author(author: Option<Seq<char>>) -> bool {
    author == Some("bors"@)
}

/// Commit messages that are structurally valid but administratively
/// uninteresting: explicit removal-request commits and merge commits,
/// compared after trailing newlines are trimmed.
pub open spec fn skip_message(m: Seq<char>) -> bool {
    ||| trim_nl(m) == "Crate version removal request"@
    ||| has_prefix_spec(trim_nl(m), "Merge remote-tracking branch"@)
}

/// A commit pair is skipped — not an error — when its author is not the
/// trusted publisher, or its message matches a non-substantive pattern.
/// An unreadable message (`None`) matches no pattern.
pub open spec fn skip_pair(author: Option<Seq<char>>, message: Option<Seq<char>>) -> bool {
    ||| !trusted_author(author)
    ||| (message matches Some(m) && skip_message(m))
}

/// Decide whether a commit pair is administratively uninteresting.
pub fn should_skip(author: &Option<String>, message: &Option<String>) -> (r: bool)
    ensures
        r == skip_pair(author.deep_view(), message.deep_view()),
{
    let trusted = match author {
        Some(a) => str_eq(a.as_str(), "bors"),
        None => false,
    };
    if !trusted {
        return true;
    }
    match message {
        Some(m) => {
            let t = trim_end_newlines(m.as_str());
            str_eq(t, "Crate version removal request") || has_prefix(
                t,
                "Merge remote-tracking branch",
            )
        },
        None => false,
    }
}

/// The walker's position in the upstream history, and the pair it is waiting
/// on. The position is the index of the commit the local checkout stands on.
pub struct Walker {
    cursor: u64,
    pending: Option<u64>,
}

impl Walker {
    /// The commit the local checkout stands on.
    pub closed spec fn cursor(self) -> u64 {
        self.cursor
    }

    /// The commit the cursor will advance to once the in-flight event is
    /// acknowledged.
    pub closed spec fn pending(self) -> Option<u64> {
        self.pending
    }

    /// Positions only move forward: a pending target lies past the cursor.
    pub open spec fn wf(self) -> bool {
        self.pending() matches Some(p) ==> p > self.cursor()
    }

    /// The walker once a pair at `next_pos` is handed off.
    pub closed spec fn spec_offer(self, next_pos: u64) -> Walker {
        Walker { cursor: self.cursor, pending: Some(next_pos) }
    }

    /// The walker once the in-flight event is acknowledged.
    pub closed spec fn spec_advance(self) -> Walker {
        Walker {
            cursor: match self.pending {
                Some(p) => p,
                None => self.cursor,
            },
            pending: None,
        }
    }

    pub fn new(start: u64) -> (r: Walker)
        ensures
            r.cursor() == start,
            r.pending() is None,
            r.wf(),
    {
        Walker { cursor: start, pending: None }
    }

    /// Handle one consecutive commit pair whose `next` commit sits at
    /// `next_pos` in the history. A skipped pair leaves walker and bridge
    /// untouched. Otherwise the pair's classification — event or error — is
    /// handed to the bridge and the walker waits on `next_pos`.
    pub fn process_pair(
        &mut self,
        bridge: &mut Bridge<Result<ChangeEvent, ClassifyError>>,
        author: &Option<String>,
        message: &Option<String>,
        lines: &Vec<DiffLine>,
        next_pos: u64,
    ) -> (offered: bool)
        requires
            old(self).wf(),
            old(self).pending() is None,
            old(bridge).send_allowed(),
            next_pos > old(self).cursor(),
        ensures
            final(self).wf(),
            final(self).cursor() == old(self).cursor(),
            offered == !skip_pair(author.deep_view(), message.deep_view()),
            !offered ==> *final(self) == *old(self) && *final(bridge) == *old(bridge),
            offered ==> {
                &&& *final(self) == old(self).spec_offer(next_pos)
                &&& final(self).pending() == Some(next_pos)
                &&& (final(bridge).queued() matches Some(res) && classifier_post(lines@, res))
                &&& !final(bridge).awaiting_ack()
            },
    {
        if should_skip(author, message) {
            return false;
        }
        let res = diff_one(lines);
        let handed = bridge.try_send(res);
        proof {
            assert(handed is Ok);
        }
        self.pending = Some(next_pos);
        true
    }

    /// Advance the cursor past the pair in flight. Allowed only once the
    /// dispatcher has acknowledged — taken and fully processed — the event,
    /// and exactly once per offered pair.
    pub fn advance_after_ack(
        &mut self,
        bridge: &Bridge<Result<ChangeEvent, ClassifyError>>,
    )
        requires
            old(self).wf(),
            old(self).pending() is Some,
            !bridge.in_flight(),
        ensures
            *final(self) == old(self).spec_advance(),
            final(self).wf(),
            old(self).pending() matches Some(p) ==> final(self).cursor() == p,
            final(self).cursor() > old(self).cursor(),
            final(self).pending() is None,
    {
        match self.pending {
            Some(p) => {
                self.cursor = p;
                self.pending = None;
            },
            None => {},
        }
    }
}

/// Law: cursor advancement is monotonic and happens exactly once per
/// processed commit pair, whatever the classification outcome: handing the
/// pair off leaves the cursor in place; the acknowledgement moves it to the
/// pair's position, strictly forward; and a further advance needs a further
/// pair, since nothing is pending afterwards.
pub proof fn lemma_cursor_once_per_pair(w: Walker, next_pos: u64)
    requires
        w.wf(),
        w.pending() is None,
        next_pos > w.cursor(),
    ensures
        w.spec_offer(next_pos).cursor() == w.cursor(),
        w.spec_offer(next_pos).spec_advance().cursor() == next_pos,
        w.spec_offer(next_pos).spec_advance().cursor() > w.cursor(),
        w.spec_offer(next_pos).spec_advance().pending() is None,
{
}

} // verus!
