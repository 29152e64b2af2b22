//! Small string helpers and the layout of a package's file inside the index.

use vstd::prelude::*;

verus! {

/// What lowercasing a string yields, as a function of its characters alone.
/// The mapping is the Unicode one; the library never states its table.
pub uninterp spec fn lower_of(s: Seq<char>) -> Seq<char>;

/// Relies on str::to_lowercase: the result depends on the characters alone,
/// and every character maps to at least one character, so the result is no
/// shorter than the input.
#[verifier::external_body]
fn lowercase(s: &str) -> (r: String)
    ensures
        r@ == lower_of(s@),
        r@.len() >= s@.len(),
{
    s.to_lowercase()
}

/// Character-wise string equality.
pub fn str_eq(a: &str, b: &str) -> (r: bool)
    ensures
        r == (a@ == b@),
{
    let alen = a.unicode_len();
    let blen = b.unicode_len();
    if alen != blen {
        return false;
    }
    let mut i: usize = 0;
    while i < alen
        invariant
            i <= alen,
            alen == a@.len(),
            alen == b@.len(),
            forall|j: int| 0 <= j < i ==> a@[j] == b@[j],
        decreases alen - i,
    {
        if a.get_char(i) != b.get_char(i) {
            return false;
        }
        i += 1;
    }
    proof {
        assert(a@ =~= b@);
    }
    true
}

/// `p` is a prefix of `s`.
pub open spec fn has_prefix_spec(s: Seq<char>, p: Seq<char>) -> bool {
    p.len() <= s.len() && s.subrange(0, p.len() as int) == p
}

pub fn has_prefix(s: &str, p: &str) -> (r: bool)
    ensures
        r == has_prefix_spec(s@, p@),
{
    let plen = p.unicode_len();
    if plen > s.unicode_len() {
        return false;
    }
    let mut i: usize = 0;
    while i < plen
        invariant
            i <= plen,
            plen == p@.len(),
            plen <= s@.len(),
            forall|j: int| 0 <= j < i ==> s@[j] == p@[j],
        decreases plen - i,
    {
        if s.get_char(i) != p.get_char(i) {
            proof {
                assert(s@.subrange(0, plen as int)[i as int] != p@[i as int]);
            }
            return false;
        }
        i += 1;
    }
    proof {
        assert(s@.subrange(0, plen as int) =~= p@);
    }
    true
}

/// `s` with every trailing newline removed.
pub open spec fn trim_nl(s: Seq<char>) -> Seq<char>
    decreases s.len(),
{
    if s.len() > 0 && s.last() == '\n' {
        trim_nl(s.drop_last())
    } else {
        s
    }
}

pub fn trim_end_newlines(s: &str) -> (r: &str)
    ensures
        r@ == trim_nl(s@),
{
    let len = s.unicode_len();
    proof {
        assert(s@.take(len as int) =~= s@);
    }
    let mut k = len;
    while k > 0 && s.get_char(k - 1) == '\n'
        invariant
            k <= len,
            len == s@.len(),
            trim_nl(s@) == trim_nl(s@.take(k as int)),
        decreases k,
    {
        proof {
            assert(s@.take(k as int).last() == s@[k - 1]);
            assert(s@.take(k as int).drop_last() =~= s@.take(k - 1));
        }
        k -= 1;
    }
    proof {
        if k == 0 {
            assert(s@.take(0) =~= Seq::<char>::empty());
        }
        assert(s@.take(k as int) =~= s@.subrange(0, k as int));
    }
    s.substring_char(0, k)
}

/// Where the index keeps the file of the package with the given lowercased
/// name: names of one, two and three characters sit under `1/`, `2/` and
/// `3/<first character>/`; longer names under the first two characters and
/// then the next two.
pub open spec fn index_file_path(n: Seq<char>) -> Seq<char> {
    if n.len() == 1 {
        "1/"@ + n
    } else if n.len() == 2 {
        "2/"@ + n
    } else if n.len() == 3 {
        "3/"@ + n.subrange(0, 1) + "/"@ + n
    } else {
        n.subrange(0, 2) + "/"@ + n.subrange(2, 4) + "/"@ + n
    }
}

/// Path of a package's file inside the index, relative to the index root,
/// with `/` separating the components.
pub fn crate_path(name: &str) -> (r: String)
    requires
        name@.len() > 0,
    ensures
        r@ == index_file_path(lower_of(name@)),
{
    let lowered = lowercase(name);
    let low = lowered.as_str();
    let len = low.unicode_len();
    let mut s: String;
    if len == 1 {
        s = String::from_str("1/");
        s.append(low);
    } else if len == 2 {
        s = String::from_str("2/");
        s.append(low);
    } else if len == 3 {
        s = String::from_str("3/");
        s.append(low.substring_char(0, 1));
        s.append("/");
        s.append(low);
    } else {
        s = String::from_str(low.substring_char(0, 2));
        s.append("/");
        s.append(low.substring_char(2, 4));
        s.append("/");
        s.append(low);
    }
    s
}

} // verus!
