//! Small operations on text, stated over sequences of characters.

use vstd::prelude::*;
use vstd::string::*;

verus! {

/// The texts of a sequence of strings, in order.
pub open spec fn texts(names: Seq<String>) -> Seq<Seq<char>> {
    Seq::new(names.len(), |i: int| names[i]@)
}

/// The text of an optional string.
pub open spec fn text_option(name: Option<String>) -> Option<Seq<char>> {
    match name {
        Some(n) => Some(n@),
        None => None,
    }
}

/// Whether `c` occurs in `s`.
pub open spec fn has_char(s: Seq<char>, c: char) -> bool {
    exists|i: int| 0 <= i < s.len() && s[i] == c
}

/// The position of the first `c` in `s`, or the length of `s` where there is none.
pub open spec fn first_char_position(s: Seq<char>, c: char) -> int
    decreases s.len(),
{
    if s.len() == 0 {
        0
    } else if s[0] == c {
        0
    } else {
        1 + first_char_position(s.drop_first(), c)
    }
}

/// `p` is the position of the first `c` when no character before `p` is `c`
/// and `p` is the end or holds `c`.
pub proof fn lemma_first_char_position(s: Seq<char>, c: char, p: int)
    requires
        0 <= p <= s.len(),
        forall|k: int| 0 <= k < p ==> s[k] != c,
        p < s.len() ==> s[p] == c,
    ensures
        first_char_position(s, c) == p,
    decreases s.len(),
{
    if s.len() > 0 && p > 0 {
        let rest = s.drop_first();
        assert(s[0] != c);
        assert forall|k: int| 0 <= k < p - 1 implies rest[k] != c by {
            assert(rest[k] == s[k + 1]);
        }
        lemma_first_char_position(rest, c, p - 1);
    }
}

/// The first position of `c` lies within `s` exactly when `c` occurs in `s`.
pub proof fn lemma_first_char_position_bounds(s: Seq<char>, c: char)
    ensures
        0 <= first_char_position(s, c) <= s.len(),
        first_char_position(s, c) < s.len() <==> has_char(s, c),
        first_char_position(s, c) < s.len() ==> s[first_char_position(s, c)] == c,
    decreases s.len(),
{
    if s.len() > 0 && s[0] != c {
        let rest = s.drop_first();
        lemma_first_char_position_bounds(rest, c);
        if has_char(rest, c) {
            let i = choose|i: int| 0 <= i < rest.len() && rest[i] == c;
            assert(s[i + 1] == c);
        }
        if has_char(s, c) {
            let i = choose|i: int| 0 <= i < s.len() && s[i] == c;
            assert(rest[i - 1] == c);
        }
    } else if s.len() > 0 {
        assert(s[0] == c);
    }
}

/// Whether both hold the same characters.
pub fn str_eq(a: &str, b: &str) -> (same: bool)
    ensures
        same == (a@ == b@),
{
    let x = String::from_str(a);
    let y = String::from_str(b);
    x == y
}

/// Whether `s` begins with `prefix`.
pub fn starts_with(s: &str, prefix: &str) -> (yes: bool)
    ensures
        yes == prefix@.is_prefix_of(s@),
{
    let n = prefix.unicode_len();
    if n > s.unicode_len() {
        return false;
    }
    let head = s.substring_char(0, n);
    let same = str_eq(head, prefix);
    proof {
        if same {
            assert(s@.subrange(0, n as int) == prefix@);
            assert(prefix@.is_prefix_of(s@));
        }
        if prefix@.is_prefix_of(s@) {
            assert(s@.subrange(0, n as int) =~= prefix@);
        }
    }
    same
}

/// Whether `s` ends with `suffix`.
pub fn ends_with(s: &str, suffix: &str) -> (yes: bool)
    ensures
        yes == suffix@.is_suffix_of(s@),
{
    let n = suffix.unicode_len();
    let len = s.unicode_len();
    if n > len {
        return false;
    }
    let tail = s.substring_char(len - n, len);
    let same = str_eq(tail, suffix);
    proof {
        if suffix@.is_suffix_of(s@) {
            assert(s@.subrange(len - n, len as int) =~= suffix@);
        }
    }
    same
}

/// The position of the first `c` in `s`, if `c` occurs.
pub fn find_char(s: &str, c: char) -> (position: Option<usize>)
    ensures
        position.is_some() == has_char(s@, c),
        position.is_some() ==> position.unwrap() == first_char_position(s@, c),
{
    let len = s.unicode_len();
    let mut i: usize = 0;
    while i < len
        invariant
            i <= len,
            len == s@.len(),
            forall|k: int| 0 <= k < i ==> s@[k] != c,
        decreases len - i,
    {
        if s.get_char(i) == c {
            proof {
                lemma_first_char_position(s@, c, i as int);
            }
            return Some(i);
        }
        i = i + 1;
    }
    None
}

/// Whether `c` occurs in `s`.
pub fn contains_char(s: &str, c: char) -> (yes: bool)
    ensures
        yes == has_char(s@, c),
{
    find_char(s, c).is_some()
}

/// `a` followed by `b`.
pub fn join_texts(a: &str, b: &str) -> (joined: String)
    ensures
        joined@ == a@ + b@,
{
    let mut joined = String::from_str(a);
    joined.append(b);
    joined
}

/// What is left of `s` after `prefix`, if `s` begins with it.
pub fn strip_prefix<'a>(s: &'a str, prefix: &str) -> (rest: Option<&'a str>)
    ensures
        rest.is_some() == prefix@.is_prefix_of(s@),
        rest.is_some() ==> rest.unwrap()@ == s@.skip(prefix@.len() as int),
{
    if starts_with(s, prefix) {
        let n = prefix.unicode_len();
        let len = s.unicode_len();
        let rest = s.substring_char(n, len);
        proof {
            assert(s@.subrange(n as int, len as int) =~= s@.skip(n as int));
        }
        Some(rest)
    } else {
        None
    }
}

/// The parts of `s` before and after the first `c`, if `c` occurs.
pub fn split_once<'a>(s: &'a str, c: char) -> (parts: Option<(&'a str, &'a str)>)
    ensures
        parts.is_some() == has_char(s@, c),
        parts.is_some() ==> parts.unwrap().0@ == s@.take(first_char_position(s@, c))
            && parts.unwrap().1@ == s@.skip(first_char_position(s@, c) + 1),
{
    match find_char(s, c) {
        Some(p) => {
            proof {
                lemma_first_char_position_bounds(s@, c);
            }
            let len = s.unicode_len();
            let before = s.substring_char(0, p);
            let after = s.substring_char(p + 1, len);
            proof {
                assert(s@.subrange(0, p as int) =~= s@.take(p as int));
                assert(s@.subrange(p + 1, len as int) =~= s@.skip(p + 1));
            }
            Some((before, after))
        },
        None => None,
    }
}

/// `String::push`: appends the character to the end of the string.
#[verifier::external_body]
pub(crate) fn push_char(s: &mut String, c: char)
    ensures
        final(s)@ == old(s)@.push(c),
{
    s.push(c)
}

/// The lower-case form of an ASCII capital; any other character as it is.
pub open spec fn ascii_lowered(c: char) -> char {
    if 'A' <= c <= 'Z' {
        ((c as u8) + 32u8) as char
    } else {
        c
    }
}

/// `s` with its ASCII capitals in lower case and without the characters `skip`.
pub open spec fn lowered_without(s: Seq<char>, skip: char) -> Seq<char>
    decreases s.len(),
{
    if s.len() == 0 {
        Seq::empty()
    } else if s.last() == skip {
        lowered_without(s.drop_last(), skip)
    } else {
        lowered_without(s.drop_last(), skip).push(ascii_lowered(s.last()))
    }
}

/// The lower-case form of an ASCII capital; any other character as it is.
pub fn ascii_lower(c: char) -> (lowered: char)
    ensures
        lowered == ascii_lowered(c),
{
    if 'A' <= c && c <= 'Z' {
        ((c as u8) + 32u8) as char
    } else {
        c
    }
}

/// `s` with its ASCII capitals in lower case and without the characters `skip`.
pub fn lower_without(s: &str, skip: char) -> (result: String)
    ensures
        result@ == lowered_without(s@, skip),
{
    let len = s.unicode_len();
    let mut result = String::new();
    let mut i: usize = 0;
    proof {
        assert(s@.take(0) =~= Seq::<char>::empty());
    }
    while i < len
        invariant
            i <= len,
            len == s@.len(),
            result@ == lowered_without(s@.take(i as int), skip),
        decreases len - i,
    {
        let c = s.get_char(i);
        proof {
            assert(s@.take(i + 1).drop_last() =~= s@.take(i as int));
            assert(s@.take(i + 1).last() == c);
        }
        if c != skip {
            push_char(&mut result, ascii_lower(c));
        }
        i = i + 1;
    }
    proof {
        assert(s@.take(i as int) =~= s@);
    }
    result
}

/// `s` with its ASCII capitals in lower case.
pub open spec fn lowered(s: Seq<char>) -> Seq<char> {
    Seq::new(s.len(), |i: int| ascii_lowered(s[i]))
}

/// `s` with its ASCII capitals in lower case.
pub fn lower(s: &str) -> (result: String)
    ensures
        result@ == lowered(s@),
{
    let len = s.unicode_len();
    let mut result = String::new();
    let mut i: usize = 0;
    while i < len
        invariant
            i <= len,
            len == s@.len(),
            result@ == lowered(s@).take(i as int),
        decreases len - i,
    {
        let c = s.get_char(i);
        let ghost before = result@;
        push_char(&mut result, ascii_lower(c));
        proof {
            assert(before.push(ascii_lowered(c)) =~= lowered(s@).take(i + 1));
        }
        i = i + 1;
    }
    proof {
        assert(lowered(s@).take(i as int) =~= lowered(s@));
    }
    result
}

/// Whether `name` is among `names`.
pub fn contains_name(names: &Vec<String>, name: &str) -> (found: bool)
    ensures
        found == texts(names@).contains(name@),
{
    let mut i: usize = 0;
    while i < names.len()
        invariant
            i <= names.len(),
            forall|k: int| 0 <= k < i ==> texts(names@)[k] != name@,
        decreases names.len() - i,
    {
        if str_eq(names[i].as_str(), name) {
            assert(texts(names@)[i as int] == name@);
            return true;
        }
        i = i + 1;
    }
    false
}

/// A copy of `names`, in order.
pub fn copy_names(names: &Vec<String>) -> (copy: Vec<String>)
    ensures
        texts(copy@) == texts(names@),
{
    let mut copy: Vec<String> = Vec::new();
    let mut i: usize = 0;
    while i < names.len()
        invariant
            i <= names.len(),
            texts(copy@) == texts(names@).take(i as int),
        decreases names.len() - i,
    {
        let ghost before = texts(copy@);
        copy.push(names[i].clone());
        proof {
            assert(texts(copy@) =~= before.push(names[i as int]@));
            assert(before.push(names[i as int]@) =~= texts(names@).take(i + 1));
        }
        i = i + 1;
    }
    proof {
        assert(texts(names@).take(i as int) =~= texts(names@));
    }
    copy
}

} // verus!
