//! The grammar of identifiers.
//!
//! An identifier is either an email address or a username.  A string that
//! holds an `@` is judged as an email address, any other string as a
//! username.  Nothing is normalised: upper and lower case are kept apart and
//! no blank is trimmed.

use vstd::prelude::*;
use vstd::std_specs::iter::IteratorSpec;

verus! {

/// An ASCII letter.
pub open spec fn is_alpha(c: char) -> bool {
    ('a' <= c && c <= 'z') || ('A' <= c && c <= 'Z')
}

/// An ASCII letter or digit.
pub open spec fn is_alnum(c: char) -> bool {
    is_alpha(c) || ('0' <= c && c <= '9')
}

/// A character of the local part of an email address, the part before `@`.
pub open spec fn is_local_char(c: char) -> bool {
    is_alnum(c) || c == '.' || c == '_' || c == '%' || c == '+' || c == '-'
}

/// A character of the domain of an email address, the part after `@`.
pub open spec fn is_domain_char(c: char) -> bool {
    is_alnum(c) || c == '.' || c == '-'
}

/// A username: 3 to 32 ASCII letters and digits.
pub open spec fn is_username(s: Seq<char>) -> bool {
    &&& 3 <= s.len() <= 32
    &&& forall|i: int| 0 <= i < s.len() ==> is_alnum(#[trigger] s[i])
}

/// `s` is an email address with its `@` at index `at` and the dot before its
/// top-level label at index `dot`: a local part of one or more characters,
/// `@`, one or more domain characters, a dot, and two or more letters.
pub open spec fn is_email_split(s: Seq<char>, at: int, dot: int) -> bool {
    &&& 1 <= at
    &&& at + 2 <= dot
    &&& dot + 3 <= s.len()
    &&& s[at] == '@'
    &&& s[dot] == '.'
    &&& forall|i: int| 0 <= i < at ==> is_local_char(#[trigger] s[i])
    &&& forall|i: int| at < i < dot ==> is_domain_char(#[trigger] s[i])
    &&& forall|i: int| dot < i < s.len() ==> is_alpha(#[trigger] s[i])
}

/// An email address: there is a way to split `s` as [`is_email_split`] asks.
pub open spec fn is_email(s: Seq<char>) -> bool {
    exists|at: int, dot: int| is_email_split(s, at, dot)
}

/// `s` holds the character `@`.
pub open spec fn has_at_sign(s: Seq<char>) -> bool {
    exists|i: int| 0 <= i < s.len() && s[i] == '@'
}

/// An identifier: an email address where the string holds an `@`, a username
/// where it does not.
pub open spec fn is_identifier(s: Seq<char>) -> bool {
    if has_at_sign(s) {
        is_email(s)
    } else {
        is_username(s)
    }
}

/// Decides [`is_alpha`].
pub fn char_is_alpha(c: char) -> (yes: bool)
    ensures
        yes == is_alpha(c),
{
    ('a' <= c && c <= 'z') || ('A' <= c && c <= 'Z')
}

/// Decides [`is_alnum`].
pub fn char_is_alnum(c: char) -> (yes: bool)
    ensures
        yes == is_alnum(c),
{
    char_is_alpha(c) || ('0' <= c && c <= '9')
}

/// Decides [`is_local_char`].
pub fn char_is_local(c: char) -> (yes: bool)
    ensures
        yes == is_local_char(c),
{
    char_is_alnum(c) || c == '.' || c == '_' || c == '%' || c == '+' || c == '-'
}

/// Decides [`is_domain_char`].
pub fn char_is_domain(c: char) -> (yes: bool)
    ensures
        yes == is_domain_char(c),
{
    char_is_alnum(c) || c == '.' || c == '-'
}

/// The characters of a string, in order.
pub fn chars_of(s: &str) -> (chars: Vec<char>)
    ensures
        chars@ == s@,
{
    let mut chars: Vec<char> = Vec::new();
    let mut rest = s.chars();
    proof {
        vstd::string::axiom_spec_iter(s);
    }
    loop
        invariant
            rest.obeys_prophetic_iter_laws(),
            chars@ + rest.remaining() == s@,
            rest.decrease() is Some,
        ensures
            chars@ == s@,
        decreases rest.decrease()->0,
    {
        let ghost before = rest;
        let next = rest.next();
        proof {
            vstd::string::next_postcondition(&before, &rest, next);
        }
        match next {
            Some(c) => {
                chars.push(c);
            },
            None => {
                break ;
            },
        }
    }
    chars
}

/// Decides [`has_at_sign`].
pub fn contains_at_sign(chars: &Vec<char>) -> (yes: bool)
    ensures
        yes == has_at_sign(chars@),
{
    let mut i: usize = 0;
    while i < chars.len()
        invariant
            i <= chars.len(),
            forall|j: int| 0 <= j < i ==> chars@[j] != '@',
        decreases chars.len() - i,
    {
        if chars[i] == '@' {
            return true;
        }
        i += 1;
    }
    false
}

/// Decides [`is_username`].
pub fn matches_username(chars: &Vec<char>) -> (yes: bool)
    ensures
        yes == is_username(chars@),
{
    let n: usize = chars.len();
    if n < 3 || n > 32 {
        return false;
    }
    let mut i: usize = 0;
    while i < n
        invariant
            n == chars.len(),
            i <= n,
            forall|j: int| 0 <= j < i ==> is_alnum(#[trigger] chars@[j]),
        decreases n - i,
    {
        if !char_is_alnum(chars[i]) {
            return false;
        }
        i += 1;
    }
    true
}

/// In an email address the `@` stands where the local characters end.
pub proof fn lemma_email_at_is_first_stop(s: Seq<char>, at: int, dot: int, stop: int)
    requires
        is_email_split(s, at, dot),
        0 <= stop <= s.len(),
        forall|i: int| 0 <= i < stop ==> is_local_char(#[trigger] s[i]),
        stop < s.len() ==> !is_local_char(s[stop]),
    ensures
        at == stop,
{
    // The `@` is no local character, so it cannot stand before `stop`; and
    // the character at `stop` is none either, so it cannot stand before `@`.
    if at < stop {
        assert(is_local_char(s[at]));
    } else if stop < at {
        assert(is_local_char(s[stop]));
    }
}

/// In an email address the dot before the top-level label is the last dot.
pub proof fn lemma_email_dot_is_last_dot(s: Seq<char>, at: int, dot: int, last: int)
    requires
        is_email_split(s, at, dot),
        at <= last < s.len(),
        last > at ==> s[last] == '.',
        forall|i: int| last < i < s.len() ==> s[i] != '.',
    ensures
        dot == last,
{
    // No dot stands behind `last`; and behind `dot` stand letters only.
    if last < dot {
        assert(s[dot] != '.');
    } else if dot < last {
        assert(is_alpha(s[last]));
    }
}

/// Decides [`is_email`]: the local part ends at the first character that is
/// not a local character, which must be the `@`; what follows must be domain
/// characters throughout, and the last dot among them must have one or more
/// characters before it and two or more letters, and nothing else, after it.
pub fn matches_email(chars: &Vec<char>) -> (yes: bool)
    ensures
        yes == is_email(chars@),
{
    let n: usize = chars.len();
    let ghost s = chars@;
    let mut at: usize = 0;
    while at < n && char_is_local(chars[at])
        invariant
            n == chars.len(),
            s == chars@,
            at <= n,
            forall|i: int| 0 <= i < at ==> is_local_char(#[trigger] s[i]),
        decreases n - at,
    {
        at += 1;
    }
    if at == 0 || at >= n || chars[at] != '@' {
        assert forall|a: int, d: int| !is_email_split(s, a, d) by {
            if is_email_split(s, a, d) {
                lemma_email_at_is_first_stop(s, a, d, at as int);
            }
        }
        return false;
    }
    let mut end: usize = at + 1;
    let mut dot: usize = at;
    while end < n && char_is_domain(chars[end])
        invariant
            n == chars.len(),
            s == chars@,
            at < end <= n,
            at <= dot < end,
            dot > at ==> s[dot as int] == '.',
            forall|i: int| at < i < end ==> is_domain_char(#[trigger] s[i]),
            forall|i: int| dot < i < end ==> s[i] != '.',
        decreases n - end,
    {
        if chars[end] == '.' {
            dot = end;
        }
        end += 1;
    }
    if end < n {
        assert forall|a: int, d: int| !is_email_split(s, a, d) by {
            if is_email_split(s, a, d) {
                lemma_email_at_is_first_stop(s, a, d, at as int);
                // Every character behind the `@` of an email address is a
                // domain character: the character at `end` is none.
                if end < d {
                    assert(is_domain_char(s[end as int]));
                } else if end > d {
                    assert(is_alpha(s[end as int]));
                }
            }
        }
        return false;
    }
    if dot - at < 2 || n - dot < 3 {
        assert forall|a: int, d: int| !is_email_split(s, a, d) by {
            if is_email_split(s, a, d) {
                lemma_email_at_is_first_stop(s, a, d, at as int);
                lemma_email_dot_is_last_dot(s, a, d, dot as int);
            }
        }
        return false;
    }
    let mut k: usize = dot + 1;
    while k < n && char_is_alpha(chars[k])
        invariant
            n == chars.len(),
            s == chars@,
            dot < k <= n,
            forall|i: int| dot < i < k ==> is_alpha(#[trigger] s[i]),
        decreases n - k,
    {
        k += 1;
    }
    if k < n {
        assert forall|a: int, d: int| !is_email_split(s, a, d) by {
            if is_email_split(s, a, d) {
                lemma_email_at_is_first_stop(s, a, d, at as int);
                lemma_email_dot_is_last_dot(s, a, d, dot as int);
            }
        }
        return false;
    }
    assert(is_email_split(s, at as int, dot as int));
    true
}

} // verus!
