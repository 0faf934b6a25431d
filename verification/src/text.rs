use vstd::prelude::*;
use vstd::string::*;
use vstd::utf8::{decode_utf8, valid_utf8};

verus! {

/// Whether two strings hold the same characters.
pub(crate) fn same_text(a: &str, b: &str) -> (r: bool)
    ensures
        r == (a@ == b@),
{
    let x = String::from_str(a);
    let y = String::from_str(b);
    x == y
}

/// A new string holding the characters of `s`.
pub(crate) fn owned_text(s: &str) -> (r: String)
    ensures
        r@ == s@,
{
    String::from_str(s)
}

/// `head` followed by `tail`, as a new string.
pub(crate) fn joined_text(head: &str, tail: &str) -> (r: String)
    ensures
        r@ == head@ + tail@,
{
    let mut r = String::from_str(head);
    r.append(tail);
    r
}

/// What is left of `s` once every leading copy of `prefix` is removed, one after the other;
/// an empty `prefix` removes nothing.
pub open spec fn trim_start_matches(s: Seq<char>, prefix: Seq<char>) -> Seq<char>
    decreases s.len(),
{
    if 0 < prefix.len() <= s.len() && s.take(prefix.len() as int) == prefix {
        trim_start_matches(s.skip(prefix.len() as int), prefix)
    } else {
        s
    }
}

/// Whether the characters of `s` from `start` on begin with those of `prefix`.
fn occurs_at(s: &str, s_len: usize, prefix: &str, prefix_len: usize, start: usize) -> (r: bool)
    requires
        s_len == s@.len(),
        prefix_len == prefix@.len(),
        start + prefix_len <= s_len,
    ensures
        r == (s@.subrange(start as int, start + prefix_len) == prefix@),
{
    let mut j: usize = 0;
    while j < prefix_len
        invariant
            j <= prefix_len,
            s_len == s@.len(),
            prefix_len == prefix@.len(),
            start + prefix_len <= s_len,
            forall|k: int| 0 <= k < j ==> s@[start + k] == prefix@[k],
        decreases prefix_len - j,
    {
        if s.get_char(start + j) != prefix.get_char(j) {
            assert(s@.subrange(start as int, start + prefix_len)[j as int] != prefix@[j as int]);
            return false;
        }
        j += 1;
    }
    assert(s@.subrange(start as int, start + prefix_len) =~= prefix@);
    true
}

/// `s` with every leading copy of `prefix` removed, as `str::trim_start_matches` does with a
/// string pattern.
pub fn strip_repeated_prefix<'a>(s: &'a str, prefix: &str) -> (r: &'a str)
    ensures
        r@ == trim_start_matches(s@, prefix@),
{
    let n: usize = s.unicode_len();
    let m: usize = prefix.unicode_len();
    if m == 0 {
        return s;
    }
    let mut start: usize = 0;
    assert(s@.skip(0) =~= s@);
    loop
        invariant
            0 < m,
            n == s@.len(),
            m == prefix@.len(),
            start <= n,
            trim_start_matches(s@.skip(start as int), prefix@) == trim_start_matches(s@, prefix@),
        ensures
            start <= n,
            trim_start_matches(s@.skip(start as int), prefix@) == trim_start_matches(s@, prefix@),
            trim_start_matches(s@.skip(start as int), prefix@) == s@.skip(start as int),
        decreases n - start,
    {
        if n - start >= m && occurs_at(s, n, prefix, m, start) {
            let ghost rest = s@.skip(start as int);
            assert(rest.take(m as int) =~= s@.subrange(start as int, start + m));
            assert(rest.skip(m as int) =~= s@.skip(start + m));
            start = start + m;
        } else {
            let ghost rest = s@.skip(start as int);
            assert(n - start >= m ==> rest.take(m as int) =~= s@.subrange(start as int, start + m));
            assert(trim_start_matches(rest, prefix@) == rest);
            break;
        }
    }
    let r = s.substring_char(start, n);
    assert(r@ =~= s@.skip(start as int));
    r
}

/// A character in ASCII lowercase: 'A' to 'Z' become 'a' to 'z', every other character stays.
pub open spec fn ascii_lower_char(c: char) -> char {
    if 'A' <= c && c <= 'Z' {
        (c as int + 32) as char
    } else {
        c
    }
}

/// A text in ASCII lowercase, character by character.
pub open spec fn ascii_lowercase(s: Seq<char>) -> Seq<char> {
    s.map_values(|c: char| ascii_lower_char(c))
}

/// A text with its spaces removed.
pub open spec fn without_spaces(s: Seq<char>) -> Seq<char>
    decreases s.len(),
{
    if s.len() == 0 {
        s
    } else if s[0] == ' ' {
        without_spaces(s.drop_first())
    } else {
        seq![s[0]] + without_spaces(s.drop_first())
    }
}

/// Names the result of `str::to_lowercase`: the lowercase equivalent of a text by the Unicode
/// `Lowercase` derived property (where a character's place in a word matters, as for a capital
/// sigma, by that place too). Nothing more of it is stated here.
pub uninterp spec fn unicode_lowercase(s: Seq<char>) -> Seq<char>;

/// Calls `str::to_lowercase`; its contract claims only that the result is the named lowercase
/// form of the argument, a function of the argument's characters alone.
#[verifier::external_body]
pub(crate) fn lowercase(s: &str) -> (r: String)
    ensures
        r@ == unicode_lowercase(s@),
{
    s.to_lowercase()
}

/// Names the result of `String::from_utf8_lossy`: the text that the bytes encode, with each
/// sequence that is not valid UTF-8 replaced by U+FFFD.
pub uninterp spec fn utf8_lossy(bytes: Seq<u8>) -> Seq<char>;

/// Calls `String::from_utf8_lossy` and takes the text it gives as an owned string. The contract
/// claims that the result is the named lossy decoding of the bytes, and, as the function's
/// documentation says, that valid UTF-8 is decoded as it stands; the replacement of invalid
/// sequences is left unstated.
#[verifier::external_body]
pub(crate) fn text_from_bytes_lossy(bytes: &[u8]) -> (r: String)
    ensures
        r@ == utf8_lossy(bytes@),
        valid_utf8(bytes@) ==> r@ == decode_utf8(bytes@),
{
    String::from_utf8_lossy(bytes).into_owned()
}

} // verus!
