//! Character and grapheme-cluster classification used by the lexer.
//!
//! A grapheme cluster is held as a `Vec<char>`; a cluster counts as a digit,
//! letter or alphanumeric cluster when every one of its characters does.

use vstd::prelude::*;

verus! {

/// An ASCII decimal digit.
pub open spec fn digit_char(c: char) -> bool {
    48 <= c as u32 <= 57
}

/// An ASCII letter or an underscore.
pub open spec fn alpha_char(c: char) -> bool {
    (65 <= c as u32 <= 90) || (97 <= c as u32 <= 122) || c as u32 == 95
}

/// An ASCII letter, an ASCII digit or an underscore.
pub open spec fn alnum_char(c: char) -> bool {
    alpha_char(c) || digit_char(c)
}

/// Every character of the sequence is an ASCII digit.
pub open spec fn digit_cluster(s: Seq<char>) -> bool {
    forall|i: int| 0 <= i < s.len() ==> digit_char(#[trigger] s[i])
}

/// Every character of the sequence is an ASCII letter or an underscore.
pub open spec fn alpha_cluster(s: Seq<char>) -> bool {
    forall|i: int| 0 <= i < s.len() ==> alpha_char(#[trigger] s[i])
}

/// Every character of the sequence is alphanumeric or an underscore.
pub open spec fn alnum_cluster(s: Seq<char>) -> bool {
    forall|i: int| 0 <= i < s.len() ==> alnum_char(#[trigger] s[i])
}

pub fn is_digit_char(c: char) -> (r: bool)
    ensures
        r == digit_char(c),
{
    let u = c as u32;
    48 <= u && u <= 57
}

pub fn is_alpha_char(c: char) -> (r: bool)
    ensures
        r == alpha_char(c),
{
    let u = c as u32;
    (65 <= u && u <= 90) || (97 <= u && u <= 122) || u == 95
}

pub fn is_alnum_char(c: char) -> (r: bool)
    ensures
        r == alnum_char(c),
{
    is_alpha_char(c) || is_digit_char(c)
}

/// Whether every character of the string is an ASCII digit.
pub fn is_digit(c: &str) -> (r: bool)
    ensures
        r == digit_cluster(c@),
{
    let n = c.unicode_len();
    let mut i: usize = 0;
    while i < n
        invariant
            0 <= i <= n,
            n == c@.len(),
            forall|j: int| 0 <= j < i ==> digit_char(#[trigger] c@[j]),
        decreases n - i,
    {
        if !is_digit_char(c.get_char(i)) {
            return false;
        }
        i = i + 1;
    }
    true
}

/// Whether every character of the string is an ASCII letter or an underscore.
pub fn is_alpha(c: &str) -> (r: bool)
    ensures
        r == alpha_cluster(c@),
{
    let n = c.unicode_len();
    let mut i: usize = 0;
    while i < n
        invariant
            0 <= i <= n,
            n == c@.len(),
            forall|j: int| 0 <= j < i ==> alpha_char(#[trigger] c@[j]),
        decreases n - i,
    {
        if !is_alpha_char(c.get_char(i)) {
            return false;
        }
        i = i + 1;
    }
    true
}

/// Whether every character of the string is alphanumeric or an underscore.
pub fn is_alphanumeric(c: &str) -> (r: bool)
    ensures
        r == alnum_cluster(c@),
{
    let n = c.unicode_len();
    let mut i: usize = 0;
    while i < n
        invariant
            0 <= i <= n,
            n == c@.len(),
            forall|j: int| 0 <= j < i ==> alnum_char(#[trigger] c@[j]),
        decreases n - i,
    {
        if !is_alnum_char(c.get_char(i)) {
            return false;
        }
        i = i + 1;
    }
    true
}

/// Whether every character of the cluster is an ASCII digit.
pub fn vec_is_digit(c: &Vec<char>) -> (r: bool)
    ensures
        r == digit_cluster(c@),
{
    let mut i: usize = 0;
    while i < c.len()
        invariant
            i <= c@.len(),
            forall|j: int| 0 <= j < i ==> digit_char(#[trigger] c@[j]),
        decreases c@.len() - i,
    {
        if !is_digit_char(c[i]) {
            return false;
        }
        i = i + 1;
    }
    true
}

/// Whether every character of the cluster is an ASCII letter or underscore.
pub fn vec_is_alpha(c: &Vec<char>) -> (r: bool)
    ensures
        r == alpha_cluster(c@),
{
    let mut i: usize = 0;
    while i < c.len()
        invariant
            i <= c@.len(),
            forall|j: int| 0 <= j < i ==> alpha_char(#[trigger] c@[j]),
        decreases c@.len() - i,
    {
        if !is_alpha_char(c[i]) {
            return false;
        }
        i = i + 1;
    }
    true
}

/// Whether every character of the cluster is alphanumeric or an underscore.
pub fn vec_is_alnum(c: &Vec<char>) -> (r: bool)
    ensures
        r == alnum_cluster(c@),
{
    let mut i: usize = 0;
    while i < c.len()
        invariant
            i <= c@.len(),
            forall|j: int| 0 <= j < i ==> alnum_char(#[trigger] c@[j]),
        decreases c@.len() - i,
    {
        if !is_alnum_char(c[i]) {
            return false;
        }
        i = i + 1;
    }
    true
}

} // verus!
