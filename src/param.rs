//! Typed path parameters: reading one segment into a value, directly or as a
//! slug whose humanized tail is ignored.
use vstd::prelude::*;

use crate::path::{find_char, head_before, tail_from, SEPARATOR};

verus! {

/// The character that ends the machine-readable head of a slug.
pub const SLUG_HYPHEN: char = '-';

/// The error of reading an integer from text.
#[verifier::external_type_specification]
#[verifier::external_body]
pub struct ExParseIntError(std::num::ParseIntError);

/// A type that can be read from the front of a path: it reads up to the next
/// separator and hands back the value and what is left.
pub trait ParseToParam where Self: Sized {
    type Output;

    type Err;

    /// The value read from the front of `input` and the part of `input` that
    /// is left after it, or `None` when `input` does not start with a valid
    /// value.
    spec fn spec_parse(input: Seq<char>) -> Option<(Self::Output, Seq<char>)>;

    fn parse(input: &str) -> (r: Result<(Self::Output, &str), Self::Err>)
        ensures
            match r {
                Ok((v, rest)) => Self::spec_parse(input@) == Some((v, rest@))
                    && rest@.is_suffix_of(input@),
                Err(_) => Self::spec_parse(input@) is None,
            },
    ;
}

/// Whether `c` is an ASCII decimal digit.
pub open spec fn is_digit(c: char) -> bool {
    '0' <= c && c <= '9'
}

/// The number that the decimal digits `s` write.
pub open spec fn digits_value(s: Seq<char>) -> nat
    decreases s.len(),
{
    if s.len() == 0 {
        0
    } else {
        digits_value(s.drop_last()) * 10 + ((s.last() as u32) - ('0' as u32)) as nat
    }
}

/// The number that `s` writes in decimal, with an optional leading `+`; `None`
/// when `s` is not such a number.
pub open spec fn decimal(s: Seq<char>) -> Option<nat> {
    let d = if s.len() > 0 && s[0] == '+' {
        s.drop_first()
    } else {
        s
    };
    if d.len() > 0 && forall|i: int| 0 <= i < d.len() ==> is_digit(#[trigger] d[i]) {
        Some(digits_value(d))
    } else {
        None
    }
}

/// The number that `s` writes in decimal, when it writes one no greater than
/// `max`; `None` otherwise.
pub open spec fn decimal_at_most(s: Seq<char>, max: nat) -> Option<nat> {
    match decimal(s) {
        Some(n) => if n <= max {
            Some(n)
        } else {
            None
        },
        None => None,
    }
}

/// Relies on `<u64 as FromStr>::from_str`: it accepts an optional `+` followed
/// by one or more ASCII digits whose value fits in a `u64`, and nothing else.
#[verifier::external_body]
fn parse_u64(s: &str) -> (r: Result<u64, std::num::ParseIntError>)
    ensures
        match r {
            Ok(v) => decimal_at_most(s@, u64::MAX as nat) == Some(v as nat),
            Err(_) => decimal_at_most(s@, u64::MAX as nat) is None,
        },
{
    s.parse::<u64>()
}

/// Relies on `<u32 as FromStr>::from_str`: it accepts an optional `+` followed
/// by one or more ASCII digits whose value fits in a `u32`, and nothing else.
#[verifier::external_body]
fn parse_u32(s: &str) -> (r: Result<u32, std::num::ParseIntError>)
    ensures
        match r {
            Ok(v) => decimal_at_most(s@, u32::MAX as nat) == Some(v as nat),
            Err(_) => decimal_at_most(s@, u32::MAX as nat) is None,
        },
{
    s.parse::<u32>()
}

/// Relies on `<usize as FromStr>::from_str`: it accepts an optional `+`
/// followed by one or more ASCII digits whose value fits in a `usize`, and
/// nothing else.
#[verifier::external_body]
fn parse_usize(s: &str) -> (r: Result<usize, std::num::ParseIntError>)
    ensures
        match r {
            Ok(v) => decimal_at_most(s@, usize::MAX as nat) == Some(v as nat),
            Err(_) => decimal_at_most(s@, usize::MAX as nat) is None,
        },
{
    s.parse::<usize>()
}

/// Splits `input` at its first separator: the segment before it, and the rest
/// from the separator on.
pub fn split_segment<'a>(input: &'a str) -> (r: (&'a str, &'a str))
    ensures
        r.0@ == head_before(input@, SEPARATOR),
        r.1@ == tail_from(input@, SEPARATOR),
        r.1@.is_suffix_of(input@),
{
    let (head, rest) = split_at_char(input, SEPARATOR);
    assert(rest@.is_suffix_of(input@)) by {
        crate::path::lemma_position_bounds(input@, SEPARATOR);
        assert(input@.subrange(input@.len() - rest@.len(), input@.len() as int) =~= rest@);
    }
    (head, rest)
}

impl ParseToParam for u64 {
    type Output = u64;

    type Err = std::num::ParseIntError;

    open spec fn spec_parse(input: Seq<char>) -> Option<(u64, Seq<char>)> {
        match decimal_at_most(head_before(input, SEPARATOR), u64::MAX as nat) {
            Some(v) => Some((v as u64, tail_from(input, SEPARATOR))),
            None => None,
        }
    }

    fn parse(input: &str) -> (r: Result<(u64, &str), std::num::ParseIntError>) {
        let (param, rest) = split_segment(input);
        match parse_u64(param) {
            Ok(v) => Ok((v, rest)),
            Err(e) => Err(e),
        }
    }
}

impl ParseToParam for u32 {
    type Output = u32;

    type Err = std::num::ParseIntError;

    open spec fn spec_parse(input: Seq<char>) -> Option<(u32, Seq<char>)> {
        match decimal_at_most(head_before(input, SEPARATOR), u32::MAX as nat) {
            Some(v) => Some((v as u32, tail_from(input, SEPARATOR))),
            None => None,
        }
    }

    fn parse(input: &str) -> (r: Result<(u32, &str), std::num::ParseIntError>) {
        let (param, rest) = split_segment(input);
        match parse_u32(param) {
            Ok(v) => Ok((v, rest)),
            Err(e) => Err(e),
        }
    }
}

impl ParseToParam for usize {
    type Output = usize;

    type Err = std::num::ParseIntError;

    open spec fn spec_parse(input: Seq<char>) -> Option<(usize, Seq<char>)> {
        match decimal_at_most(head_before(input, SEPARATOR), usize::MAX as nat) {
            Some(v) => Some((v as usize, tail_from(input, SEPARATOR))),
            None => None,
        }
    }

    fn parse(input: &str) -> (r: Result<(usize, &str), std::num::ParseIntError>) {
        let (param, rest) = split_segment(input);
        match parse_usize(param) {
            Ok(v) => Ok((v, rest)),
            Err(e) => Err(e),
        }
    }
}

/// A parameter read as a slug: only the part of the segment before its first
/// hyphen is read as `T`; the humanized rest of the segment is skipped.
pub struct Slug<T: ParseToParam + 'static> {
    phantom: std::marker::PhantomData<&'static T>,
}

impl<T: ParseToParam> ParseToParam for Slug<T> {
    type Output = <T as ParseToParam>::Output;

    type Err = <T as ParseToParam>::Err;

    open spec fn spec_parse(input: Seq<char>) -> Option<(T::Output, Seq<char>)> {
        match T::spec_parse(head_before(head_before(input, SEPARATOR), SLUG_HYPHEN)) {
            Some((v, _)) => Some((v, tail_from(input, SEPARATOR))),
            None => None,
        }
    }

    fn parse(input: &str) -> (r: Result<(T::Output, &str), T::Err>) {
        let (slug, rest) = split_segment(input);
        let (head, _) = split_at_char(slug, SLUG_HYPHEN);
        match T::parse(head) {
            Ok((v, _)) => Ok((v, rest)),
            Err(e) => Err(e),
        }
    }
}

/// Splits `s` at its first `c`: the part before it, and the rest from `c` on.
pub fn split_at_char<'a>(s: &'a str, c: char) -> (r: (&'a str, &'a str))
    ensures
        r.0@ == head_before(s@, c),
        r.1@ == tail_from(s@, c),
{
    let l = find_char(s, c);
    proof {
        crate::path::lemma_position_bounds(s@, c);
    }
    let n = s.unicode_len();
    (s.substring_char(0, l), s.substring_char(l, n))
}

/// A parameter read from the path: its value and the name it was declared
/// under.
pub struct Param<T> {
    val: T,
    name: &'static str,
}

impl<T> Param<T> {
    /// The value that was read.
    pub closed spec fn value(&self) -> T {
        self.val
    }

    /// The name the parameter was declared under.
    pub closed spec fn label(&self) -> &'static str {
        self.name
    }

    pub fn new(val: T, name: &'static str) -> (r: Self)
        ensures
            r.value() == val,
            r.label() == name,
    {
        Param { val, name }
    }

    /// The name the parameter was declared under.
    pub fn name(&self) -> (r: &'static str)
        ensures
            r == self.label(),
    {
        self.name
    }
}

impl<T> std::ops::Deref for Param<T> {
    type Target = T;

    fn deref(&self) -> (r: &T)
        ensures
            *r == self.value(),
    {
        &self.val
    }
}

} // verus!
