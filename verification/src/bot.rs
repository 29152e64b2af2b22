//! Decisions of the bot-command front end that are pure: parsing the single
//! optional argument of a command, and the administrator check for commands
//! sent from group chats.

use vstd::prelude::*;

verus! {

/// Whether a character is whitespace, by the Unicode White_Space property.
/// The property's table is the character's business; the library never
/// states it.
pub uninterp spec fn is_space_char(c: char) -> bool;

/// Relies on char::is_whitespace: whether a character has the Unicode
/// White_Space property, a function of the character alone.
#[verifier::external_body]
fn is_space(c: char) -> (r: bool)
    ensures
        r == is_space_char(c),
{
    c.is_whitespace()
}

/// Number of whitespace-separated words in `s` from position `i` on, where
/// `in_word` says whether position `i - 1` was inside a word.
pub open spec fn word_count_from(s: Seq<char>, i: int, in_word: bool) -> nat
    decreases s.len() - i,
{
    if i < 0 || i >= s.len() {
        0
    } else {
        (if !is_space_char(s[i]) && !in_word {
            1nat
        } else {
            0nat
        }) + word_count_from(s, i + 1, !is_space_char(s[i]))
    }
}

/// Number of whitespace-separated words in `s`.
pub open spec fn word_count(s: Seq<char>) -> nat {
    word_count_from(s, 0, false)
}

/// `s` with leading whitespace removed.
pub open spec fn trim_front(s: Seq<char>) -> Seq<char>
    decreases s.len(),
{
    if s.len() > 0 && is_space_char(s[0]) {
        trim_front(s.drop_first())
    } else {
        s
    }
}

/// `s` with trailing whitespace removed.
pub open spec fn trim_back(s: Seq<char>) -> Seq<char>
    decreases s.len(),
{
    if s.len() > 0 && is_space_char(s.last()) {
        trim_back(s.drop_last())
    } else {
        s
    }
}

/// `s` with surrounding whitespace removed.
pub open spec fn trimmed(s: Seq<char>) -> Seq<char> {
    trim_back(trim_front(s))
}

/// Remove surrounding whitespace.
#[verifier::loop_isolation(false)]
pub fn trim(s: &str) -> (r: &str)
    ensures
        r@ == trimmed(s@),
{
    let len = s.unicode_len();
    proof {
        assert(s@.skip(0) =~= s@);
    }
    let mut a: usize = 0;
    while a < len && is_space(s.get_char(a))
        invariant
            a <= len,
            trim_front(s@) == trim_front(s@.skip(a as int)),
        decreases len - a,
    {
        proof {
            assert(s@.skip(a as int)[0] == s@[a as int]);
            assert(s@.skip(a as int).drop_first() =~= s@.skip(a + 1));
        }
        a += 1;
    }
    proof {
        if a < len {
            assert(s@.skip(a as int)[0] == s@[a as int]);
            assert(trim_front(s@.skip(a as int)) == s@.skip(a as int));
        } else {
            assert(s@.skip(a as int) =~= Seq::<char>::empty());
        }
        assert(s@.skip(a as int) =~= s@.subrange(a as int, len as int));
    }
    let mut b: usize = len;
    while b > a && is_space(s.get_char(b - 1))
        invariant
            a <= b <= len,
            trim_back(s@.skip(a as int)) == trim_back(s@.subrange(a as int, b as int)),
        decreases b,
    {
        proof {
            assert(s@.subrange(a as int, b as int).last() == s@[b - 1]);
            assert(s@.subrange(a as int, b as int).drop_last() =~= s@.subrange(a as int, b - 1));
        }
        b -= 1;
    }
    proof {
        if b > a {
            assert(s@.subrange(a as int, b as int).last() == s@[b - 1]);
            assert(trim_back(s@.subrange(a as int, b as int)) == s@.subrange(a as int, b as int));
        } else {
            assert(s@.subrange(a as int, b as int) =~= Seq::<char>::empty());
        }
    }
    s.substring_char(a, b)
}

/// Parse the single optional argument of a command: no word is no argument;
/// exactly one word is that word, with surrounding whitespace removed; more
/// words than one is an error carrying the word count.
#[verifier::loop_isolation(false)]
pub fn opt(input: &str) -> (r: Result<Option<String>, usize>)
    ensures
        word_count(input@) == 0 ==> r == Ok::<Option<String>, usize>(None),
        word_count(input@) == 1 ==> (r matches Ok(o) && o matches Some(w) && w@ == trimmed(
            input@,
        )),
        word_count(input@) >= 2 ==> r == Err::<Option<String>, usize>(
            word_count(input@) as usize,
        ),
{
    let len = input.unicode_len();
    let mut count: usize = 0;
    let mut in_word = false;
    let mut i: usize = 0;
    while i < len
        invariant
            i <= len,
            count <= i,
            word_count(input@) == count + word_count_from(input@, i as int, in_word),
        decreases len - i,
    {
        let sp = is_space(input.get_char(i));
        if !sp && !in_word {
            count += 1;
        }
        in_word = !sp;
        i += 1;
    }
    if count == 0 {
        Ok(None)
    } else if count == 1 {
        Ok(Some(String::from_str(trim(input))))
    } else {
        Err(count)
    }
}

/// Whether the sending user is among the chat's administrators.
pub fn is_admin(user_id: u64, admins: &Vec<u64>) -> (r: bool)
    ensures
        r == admins@.contains(user_id),
{
    let n = admins.len();
    let mut i: usize = 0;
    while i < n
        invariant
            i <= n,
            n == admins@.len(),
            forall|j: int| 0 <= j < i ==> admins@[j] != user_id,
        decreases n - i,
    {
        if admins[i] == user_id {
            return true;
        }
        i += 1;
    }
    proof {
        assert(!admins@.contains(user_id));
    }
    false
}

} // verus!
