use vstd::prelude::*;

verus! {

/// A character that is encoded by a single byte in UTF-8.
pub open spec fn is_ascii_char(c: char) -> bool {
    (c as u32) < 128
}

/// Whether cutting the first and the last character off `s` is possible
/// on byte offsets: the text has at least two characters and both ends are
/// single-byte characters.
pub open spec fn strippable(s: Seq<char>) -> bool {
    &&& s.len() >= 2
    &&& is_ascii_char(s[0])
    &&& is_ascii_char(s[s.len() - 1])
}

/// `s` without its first and its last character.
pub open spec fn stripped(s: Seq<char>) -> Seq<char>
    recommends
        s.len() >= 2,
{
    s.subrange(1, s.len() - 1)
}

/// Appends one character to a string (`String::push`).
#[verifier::external_body]
pub(crate) fn push_char(s: &mut String, c: char)
    ensures
        final(s)@ == old(s)@.push(c),
{
    s.push(c);
}

/// `s` without its last two characters (empty when it has fewer), what
/// two calls of `String::pop` leave.
pub open spec fn drop_two(s: Seq<char>) -> Seq<char> {
    if s.len() >= 2 {
        s.take(s.len() - 2)
    } else {
        Seq::empty()
    }
}

/// Dropping the last two characters of `x + y` drops them from `y` when
/// `y` has two.
pub proof fn lemma_drop_two_append(x: Seq<char>, y: Seq<char>)
    requires
        y.len() >= 2,
    ensures
        drop_two(x + y) == x + drop_two(y),
{
    assert(drop_two(x + y) =~= x + drop_two(y));
}

/// What `str::len` returns for a string of the characters `s`: the number
/// of its UTF-8 bytes.
pub open spec fn byte_len(s: Seq<char>) -> nat {
    vstd::utf8::encode_utf8(s).len()
}

/// Removes the last character of a string, if any (`String::pop`).
#[verifier::external_body]
pub(crate) fn pop_char(s: &mut String)
    ensures
        old(s)@.len() > 0 ==> final(s)@ == old(s)@.drop_last(),
        old(s)@.len() == 0 ==> final(s)@ == old(s)@,
{
    s.pop();
}

/// Removes the last two characters of a string (fewer when it is shorter).
pub fn pop_two(s: &mut String)
    ensures
        final(s)@ == drop_two(old(s)@),
{
    pop_char(s);
    pop_char(s);
    assert(s@ =~= drop_two(old(s)@));
}

/// Whether `s` can lose its first and last character ([`strippable`]).
pub fn is_strippable(s: &str) -> (ok: bool)
    ensures
        ok == strippable(s@),
{
    let len = s.unicode_len();
    if len < 2 {
        return false;
    }
    let first = s.get_char(0);
    let last = s.get_char(len - 1);
    (first as u32) < 128 && (last as u32) < 128
}

/// Removes one character at each end of `s` (the surrounding quotation
/// marks of a serialized JSON string).
pub fn remove_quotation(s: &str) -> (r: String)
    requires
        strippable(s@),
    ensures
        r@ == stripped(s@),
{
    let len = s.unicode_len();
    let inner = s.substring_char(1, len - 1);
    String::from_str(inner)
}

/// Whether `value` stands in `text` right after `key`.
pub open spec fn follows_key(text: Seq<char>, key: Seq<char>, value: Seq<char>) -> bool {
    exists|p: int|
        0 <= p && p + key.len() + value.len() <= text.len() && #[trigger] text.subrange(
            p,
            p + key.len() + value.len(),
        ) == key + value
}

/// `prefix + key + value` holds `value` right after `key`.
pub proof fn lemma_follows_key_at(prefix: Seq<char>, key: Seq<char>, value: Seq<char>)
    ensures
        follows_key(prefix + key + value, key, value),
{
    let t = prefix + key + value;
    let p = prefix.len() as int;
    assert(t.subrange(p, p + key.len() + value.len()) =~= key + value);
}

/// Appending text keeps a value that follows its key.
pub proof fn lemma_follows_key_extend(t: Seq<char>, more: Seq<char>, key: Seq<char>, value: Seq<char>)
    requires
        follows_key(t, key, value),
    ensures
        follows_key(t + more, key, value),
{
    let p = choose|p: int|
        0 <= p && p + key.len() + value.len() <= t.len() && #[trigger] t.subrange(
            p,
            p + key.len() + value.len(),
        ) == key + value;
    assert((t + more).subrange(p, p + key.len() + value.len()) =~= t.subrange(
        p,
        p + key.len() + value.len(),
    ));
}

/// Regrouping a concatenation of four texts.
pub proof fn lemma_regroup(a: Seq<char>, k: Seq<char>, v: Seq<char>, r: Seq<char>)
    ensures
        (a + k + v) + r == a + (k + v + r),
{
    assert((a + k + v) + r =~= a + (k + v + r));
}

} // verus!
