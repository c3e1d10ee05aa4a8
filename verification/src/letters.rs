//! ASCII letters, their case, and five-letter words.

use vstd::prelude::*;

verus! {

/// `String::push` appends one character at the end.
pub assume_specification[ String::push ](s: &mut String, ch: char)
    ensures
        final(s)@ == old(s)@.push(ch),
;

/// `String::pop` takes the last character off and returns it; on an empty
/// string it returns `None` and changes nothing.
pub assume_specification[ String::pop ](s: &mut String) -> (r: Option<char>)
    ensures
        old(s)@.len() == 0 ==> r is None && final(s)@ == old(s)@,
        old(s)@.len() > 0 ==> r == Some(old(s)@.last()) && final(s)@ == old(s)@.drop_last(),
;

/// `String::clear` removes every character.
pub assume_specification[ String::clear ](s: &mut String)
    ensures
        final(s)@ == Seq::<char>::empty(),
;

/// `c` is one of `A`..=`Z`.
pub open spec fn is_upper(c: char) -> bool {
    'A' <= c && c <= 'Z'
}

/// `c` is one of `a`..=`z`.
pub open spec fn is_lower(c: char) -> bool {
    'a' <= c && c <= 'z'
}

/// `c` is an ASCII letter of either case.
pub open spec fn is_letter(c: char) -> bool {
    is_upper(c) || is_lower(c)
}

/// The upper-case form of an ASCII letter; any other character is itself.
pub open spec fn upper(c: char) -> char {
    if is_lower(c) {
        ((c as u32) - 32) as char
    } else {
        c
    }
}

/// The lower-case form of an ASCII letter; any other character is itself.
pub open spec fn lower(c: char) -> char {
    if is_upper(c) {
        ((c as u32) + 32) as char
    } else {
        c
    }
}

/// Every character of `s` in upper case.
pub open spec fn upper_word(s: Seq<char>) -> Seq<char> {
    Seq::new(s.len(), |i: int| upper(s[i]))
}

/// Every character of `s` in lower case.
pub open spec fn lower_word(s: Seq<char>) -> Seq<char> {
    Seq::new(s.len(), |i: int| lower(s[i]))
}

/// Exactly five ASCII letters, of either case.
pub open spec fn is_word(s: Seq<char>) -> bool {
    s.len() == 5 && forall|i: int| 0 <= i < 5 ==> is_letter(#[trigger] s[i])
}

/// Exactly five letters `a`..=`z`.
pub open spec fn is_lower_word(s: Seq<char>) -> bool {
    s.len() == 5 && forall|i: int| 0 <= i < 5 ==> is_lower(#[trigger] s[i])
}

/// Exactly five letters `A`..=`Z`.
pub open spec fn is_upper_word(s: Seq<char>) -> bool {
    s.len() == 5 && forall|i: int| 0 <= i < 5 ==> is_upper(#[trigger] s[i])
}

/// Decides [`is_letter`].
pub fn is_ascii_letter(c: char) -> (b: bool)
    ensures
        b == is_letter(c),
{
    ('A' <= c && c <= 'Z') || ('a' <= c && c <= 'z')
}

/// Computes [`upper`].
pub fn to_upper(c: char) -> (r: char)
    ensures
        r == upper(c),
{
    if 'a' <= c && c <= 'z' {
        ((c as u8) - 32) as char
    } else {
        c
    }
}

/// Computes [`lower`].
pub fn to_lower(c: char) -> (r: char)
    ensures
        r == lower(c),
{
    if 'A' <= c && c <= 'Z' {
        ((c as u8) + 32) as char
    } else {
        c
    }
}

/// The characters of `s`, in order.
pub fn chars_of(s: &str) -> (v: Vec<char>)
    ensures
        v@ == s@,
{
    let mut v: Vec<char> = Vec::new();
    for c in it: s.chars()
        invariant
            it.seq() == s@,
            v@ == s@.take(it.index() as int),
    {
        v.push(c);
    }
    v
}

/// A string of the characters of `v`, in order.
pub fn string_of(v: &Vec<char>) -> (s: String)
    ensures
        s@ == v@,
{
    let mut s = String::new();
    let n = v.len();
    for i in 0..n
        invariant
            n == v@.len(),
            s@ == v@.take(i as int),
    {
        s.push(v[i]);
    }
    s
}

/// `s` with each ASCII letter in upper case.
pub fn uppercase(s: &str) -> (r: String)
    ensures
        r@ == upper_word(s@),
{
    let mut r = String::new();
    for c in it: s.chars()
        invariant
            it.seq() == s@,
            r@ == upper_word(s@.take(it.index() as int)),
    {
        r.push(to_upper(c));
    }
    r
}

/// `s` with each ASCII letter in lower case.
pub fn lowercase(s: &str) -> (r: String)
    ensures
        r@ == lower_word(s@),
{
    let mut r = String::new();
    for c in it: s.chars()
        invariant
            it.seq() == s@,
            r@ == lower_word(s@.take(it.index() as int)),
    {
        r.push(to_lower(c));
    }
    r
}

/// Changing the case of a word keeps it a word, and the lower-case form of
/// an upper-case form is the lower-case form.
pub proof fn lemma_case_of_word(s: Seq<char>)
    ensures
        is_word(s) ==> is_upper_word(upper_word(s)) && is_lower_word(lower_word(s)),
        is_word(lower_word(s)) <==> is_word(s),
        lower_word(upper_word(s)) == lower_word(s),
        upper_word(upper_word(s)) == upper_word(s),
        is_upper_word(s) ==> upper_word(s) == s && is_word(s),
        is_lower_word(s) ==> lower_word(s) == s && is_word(s),
{
    if is_word(s) {
        assert forall|i: int| 0 <= i < 5 implies is_upper(#[trigger] upper_word(s)[i]) by {
            assert(is_letter(s[i]));
        }
        assert forall|i: int| 0 <= i < 5 implies is_lower(#[trigger] lower_word(s)[i]) by {
            assert(is_letter(s[i]));
        }
        assert forall|i: int| 0 <= i < 5 implies is_letter(#[trigger] lower_word(s)[i]) by {
            assert(is_letter(s[i]));
        }
    }
    if is_word(lower_word(s)) {
        assert forall|i: int| 0 <= i < 5 implies is_letter(#[trigger] s[i]) by {
            assert(is_letter(lower_word(s)[i]));
        }
    }
    assert(lower_word(upper_word(s)) =~= lower_word(s));
    assert(upper_word(upper_word(s)) =~= upper_word(s));
    if is_upper_word(s) {
        assert(upper_word(s) =~= s);
    }
    if is_lower_word(s) {
        assert(lower_word(s) =~= s);
    }
}

} // verus!
