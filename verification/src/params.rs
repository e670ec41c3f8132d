//! Scalars given by the operator: trimming, parsing, and the commission of
//! a validator.

use crate::error::ErrorKind;
use vstd::prelude::*;
use vstd::string::StrSliceExecFns;

verus! {

/// Why a scalar given by the operator was refused.
#[derive(Clone, Debug, PartialEq, Eq)]
pub enum InputError {
    /// The text given for `field` is not a number of the expected type.
    InvalidNumber { field: String, text: String },
    /// The commission is a number, but more than one hundred percent.
    CommissionOutOfRange { value: u8 },
}

/// A refusal of a scalar, as mathematical values.
pub enum InputErrorView {
    InvalidNumber { field: Seq<char>, text: Seq<char> },
    CommissionOutOfRange { value: u8 },
}

impl View for InputError {
    type V = InputErrorView;

    open spec fn view(&self) -> InputErrorView {
        match self {
            InputError::InvalidNumber { field, text } => InputErrorView::InvalidNumber {
                field: field@,
                text: text@,
            },
            InputError::CommissionOutOfRange { value } => InputErrorView::CommissionOutOfRange {
                value: *value,
            },
        }
    }
}

impl InputError {
    /// The kind of failure that a refused scalar is: a failure of input
    /// validation, caught before anything is asked of the network.
    pub fn kind(&self) -> (r: ErrorKind)
        ensures
            r == ErrorKind::InputValidation,
    {
        ErrorKind::InputValidation
    }
}

/// Whether a character is white space: one of the characters to which
/// Unicode gives the property `White_Space`.
pub open spec fn is_white_space(c: char) -> bool {
    let n = c as u32;
    ||| 0x09 <= n <= 0x0d
    ||| n == 0x20
    ||| n == 0x85
    ||| n == 0xa0
    ||| n == 0x1680
    ||| 0x2000 <= n <= 0x200a
    ||| n == 0x2028
    ||| n == 0x2029
    ||| n == 0x202f
    ||| n == 0x205f
    ||| n == 0x3000
}

/// Whether a character is white space.
pub fn white_space(c: char) -> (r: bool)
    ensures
        r == is_white_space(c),
{
    let n = c as u32;
    (0x09 <= n && n <= 0x0d) || n == 0x20 || n == 0x85 || n == 0xa0 || n == 0x1680 || (0x2000 <= n
        && n <= 0x200a) || n == 0x2028 || n == 0x2029 || n == 0x202f || n == 0x205f || n == 0x3000
}

/// A text without the white space it starts with.
pub open spec fn trim_start(s: Seq<char>) -> Seq<char>
    decreases s.len(),
{
    if s.len() > 0 && is_white_space(s.first()) {
        trim_start(s.drop_first())
    } else {
        s
    }
}

/// A text without the white space it ends with.
pub open spec fn trim_end(s: Seq<char>) -> Seq<char>
    decreases s.len(),
{
    if s.len() > 0 && is_white_space(s.last()) {
        trim_end(s.drop_last())
    } else {
        s
    }
}

/// A text without the white space around it.
pub open spec fn trimmed(s: Seq<char>) -> Seq<char> {
    trim_end(trim_start(s))
}

/// Removes the white space around a text.
pub fn trim(s: &str) -> (r: &str)
    ensures
        r@ == trimmed(s@),
{
    let n = s.unicode_len();
    let mut start: usize = 0;
    assert(s@.subrange(0, n as int) =~= s@);
    while start < n && white_space(s.get_char(start))
        invariant
            start <= n,
            n == s@.len(),
            trim_start(s@) == trim_start(s@.subrange(start as int, n as int)),
        decreases n - start,
    {
        proof {
            let rest = s@.subrange(start as int, n as int);
            assert(rest.first() == s@[start as int]);
            assert(rest.drop_first() =~= s@.subrange(start + 1, n as int));
        }
        start = start + 1;
    }
    proof {
        let rest = s@.subrange(start as int, n as int);
        if start < n {
            assert(rest.first() == s@[start as int]);
        }
        assert(trim_start(rest) == rest);
    }
    let ghost front = s@.subrange(start as int, n as int);
    let mut end: usize = n;
    while end > start && white_space(s.get_char(end - 1))
        invariant
            start <= end <= n,
            n == s@.len(),
            front == s@.subrange(start as int, n as int),
            trim_end(front) == trim_end(s@.subrange(start as int, end as int)),
        decreases end,
    {
        proof {
            let rest = s@.subrange(start as int, end as int);
            assert(rest.last() == s@[end - 1]);
            assert(rest.drop_last() =~= s@.subrange(start as int, end - 1));
        }
        end = end - 1;
    }
    proof {
        let rest = s@.subrange(start as int, end as int);
        if end > start {
            assert(rest.last() == s@[end - 1]);
        }
        assert(trim_end(rest) == rest);
    }
    s.substring_char(start, end)
}

/// The text without the white space around it, or `None` where nothing is
/// left of it.
pub fn non_empty_trimmed(s: &str) -> (r: Option<&str>)
    ensures
        match r {
            Some(t) => t@ == trimmed(s@) && t@.len() > 0,
            None => trimmed(s@).len() == 0,
        },
{
    let t = trim(s);
    if t.unicode_len() == 0 {
        None
    } else {
        Some(t)
    }
}

/// What follows the home directory in a path that starts with `~/`, and
/// `None` for any other path.
pub open spec fn home_relative(path: Seq<char>) -> Option<Seq<char>> {
    if path.len() >= 2 && path[0] == '~' && path[1] == '/' {
        Some(path.skip(2))
    } else {
        None
    }
}

/// Splits `~/` off a path that starts with it.
pub fn strip_home_prefix(path: &str) -> (r: Option<&str>)
    ensures
        match r {
            Some(rest) => home_relative(path@) == Some(rest@),
            None => home_relative(path@) is None,
        },
{
    let n = path.unicode_len();
    if n >= 2 && path.get_char(0) == '~' && path.get_char(1) == '/' {
        let rest = path.substring_char(2, n);
        assert(path@.subrange(2, n as int) =~= path@.skip(2));
        Some(rest)
    } else {
        None
    }
}

/// Whether a character is one of the ten decimal digits.
pub open spec fn is_digit(c: char) -> bool {
    '0' <= c <= '9'
}

/// The number that a sequence of decimal digits writes.
pub open spec fn decimal_value(digits: Seq<char>) -> nat
    decreases digits.len(),
{
    if digits.len() == 0 {
        0
    } else {
        decimal_value(digits.drop_last()) * 10 + ((digits.last() as u32 - '0' as u32) as nat)
    }
}

/// The digits of a number written with or without a plus sign before it.
pub open spec fn unsigned_digits(s: Seq<char>) -> Seq<char> {
    if s.len() > 0 && s.first() == '+' {
        s.drop_first()
    } else {
        s
    }
}

/// The number between 0 and 255 that a text writes: a plus sign or none,
/// then one decimal digit or more and nothing else. Any other text, and a
/// number above 255, writes none.
pub open spec fn parsed_u8(s: Seq<char>) -> Option<u8> {
    let digits = unsigned_digits(s);
    if digits.len() > 0 && (forall|i: int| 0 <= i < digits.len() ==> is_digit(#[trigger] digits[i]))
        && decimal_value(digits) <= 255 {
        Some(decimal_value(digits) as u8)
    } else {
        None
    }
}

/// A number is at least what any of its leading digits write.
pub proof fn lemma_decimal_value_grows(digits: Seq<char>, n: int)
    requires
        0 <= n <= digits.len(),
        forall|i: int| 0 <= i < digits.len() ==> is_digit(#[trigger] digits[i]),
    ensures
        decimal_value(digits.subrange(0, n)) <= decimal_value(digits),
    decreases digits.len(),
{
    if n == digits.len() {
        assert(digits.subrange(0, n) =~= digits);
    } else {
        let shorter = digits.drop_last();
        assert(shorter.subrange(0, n) =~= digits.subrange(0, n));
        assert forall|i: int| 0 <= i < shorter.len() implies is_digit(#[trigger] shorter[i]) by {
            assert(shorter[i] == digits[i]);
        }
        lemma_decimal_value_grows(shorter, n);
    }
}

/// Reads a number between 0 and 255 in decimal digits, with or without a
/// plus sign before it.
pub fn parse_u8(s: &str) -> (r: Option<u8>)
    ensures
        r == parsed_u8(s@),
{
    let n = s.unicode_len();
    let first: usize = if n > 0 && s.get_char(0) == '+' {
        1
    } else {
        0
    };
    let ghost digits = unsigned_digits(s@);
    assert(digits =~= s@.subrange(first as int, n as int));
    if first == n {
        return None;
    }
    let mut value: u16 = 0;
    let mut i: usize = first;
    while i < n
        invariant
            first <= i <= n,
            n == s@.len(),
            digits == s@.subrange(first as int, n as int),
            digits == unsigned_digits(s@),
            forall|k: int| 0 <= k < i - first ==> is_digit(#[trigger] digits[k]),
            value == decimal_value(digits.subrange(0, i - first)),
            value <= 255,
        decreases n - i,
    {
        let c = s.get_char(i);
        assert(c == digits[i - first]);
        if !(c >= '0' && c <= '9') {
            assert(!is_digit(digits[i - first]));
            return None;
        }
        let digit: u16 = (c as u32 - '0' as u32) as u16;
        let ghost longer = digits.subrange(0, i - first + 1);
        proof {
            assert(longer.drop_last() =~= digits.subrange(0, i - first));
            assert(longer.last() == c);
            assert(decimal_value(longer) == value * 10 + digit);
        }
        value = value * 10 + digit;
        if value > 255 {
            proof {
                if forall|k: int| 0 <= k < digits.len() ==> is_digit(#[trigger] digits[k]) {
                    lemma_decimal_value_grows(digits, i - first + 1);
                    assert(decimal_value(digits) > 255);
                }
            }
            return None;
        }
        i = i + 1;
    }
    assert(digits.subrange(0, n - first) =~= digits);
    Some(value as u8)
}

/// What trimming and parsing makes of a text given for the field
/// `field_name`: nothing where only white space was given, the number
/// where the rest writes one, and a refusal that quotes the rest
/// otherwise.
pub open spec fn trim_and_parse_outcome(s: Seq<char>, field_name: Seq<char>) -> Result<
    Option<u8>,
    InputErrorView,
> {
    let text = trimmed(s);
    if text.len() == 0 {
        Ok(None)
    } else {
        match parsed_u8(text) {
            Some(value) => Ok(Some(value)),
            None => Err(InputErrorView::InvalidNumber { field: field_name, text }),
        }
    }
}

/// Trims a text and reads it as a number between 0 and 255. An empty text
/// is no error: it yields `None`.
pub fn trim_and_parse(s: &str, field_name: &str) -> (r: Result<Option<u8>, InputError>)
    ensures
        match r {
            Ok(value) => trim_and_parse_outcome(s@, field_name@) == Ok::<
                Option<u8>,
                InputErrorView,
            >(value),
            Err(e) => trim_and_parse_outcome(s@, field_name@) == Err::<
                Option<u8>,
                InputErrorView,
            >(e@),
        },
{
    match non_empty_trimmed(s) {
        None => Ok(None),
        Some(text) => match parse_u8(text) {
            Some(value) => Ok(Some(value)),
            None => Err(
                InputError::InvalidNumber { field: field_name.to_owned(), text: text.to_owned() },
            ),
        },
    }
}

/// The share of the rewards that a validator keeps, in percent: a number
/// from 0 to 100.
#[derive(Debug, Clone, Copy)]
pub struct Commission(u8);

/// The commission that a text asks for: none given means none taken.
pub open spec fn commission_outcome(s: Seq<char>) -> Result<u8, InputErrorView> {
    match trim_and_parse_outcome(s, "commission"@) {
        Err(e) => Err(e),
        Ok(None) => Ok(0u8),
        Ok(Some(value)) => {
            if value > 100 {
                Err(InputErrorView::CommissionOutOfRange { value })
            } else {
                Ok(value)
            }
        },
    }
}

impl Commission {
    /// A commission never exceeds one hundred percent.
    #[verifier::type_invariant]
    spec fn in_range(self) -> bool {
        self.0 <= 100
    }

    /// The commission in percent.
    pub closed spec fn percent(self) -> u8 {
        self.0
    }

    /// The commission in percent, from 0 to 100.
    pub fn value(&self) -> (r: u8)
        ensures
            r == self.percent(),
            r <= 100,
    {
        proof {
            use_type_invariant(self);
        }
        self.0
    }

    /// The commission of `percent` percent, where that is at most one
    /// hundred.
    pub fn new(percent: u8) -> (r: Option<Commission>)
        ensures
            match r {
                Some(c) => percent <= 100 && c.percent() == percent,
                None => percent > 100,
            },
    {
        if percent > 100 {
            None
        } else {
            Some(Commission(percent))
        }
    }

    /// Reads a commission: a whole number of percent from 0 to 100, or
    /// nothing, which stands for zero.
    pub fn parse(s: &str) -> (r: Result<Commission, InputError>)
        ensures
            match r {
                Ok(c) => commission_outcome(s@) == Ok::<u8, InputErrorView>(c.percent()),
                Err(e) => commission_outcome(s@) == Err::<u8, InputErrorView>(e@),
            },
    {
        let given = match trim_and_parse(s, "commission") {
            Ok(given) => given,
            Err(e) => {
                return Err(e);
            },
        };
        match given {
            None => Ok(Commission(0)),
            Some(value) => {
                if value > 100 {
                    Err(InputError::CommissionOutOfRange { value })
                } else {
                    Ok(Commission(value))
                }
            },
        }
    }
}

impl std::str::FromStr for Commission {
    type Err = InputError;

    /// Reads a commission as `Commission::parse` does: a whole number of
    /// percent from 0 to 100, or nothing, which stands for zero.
    fn from_str(s: &str) -> (r: Result<Commission, InputError>)
        ensures
            match r {
                Ok(c) => commission_outcome(s@) == Ok::<u8, InputErrorView>(c.percent()),
                Err(e) => commission_outcome(s@) == Err::<u8, InputErrorView>(e@),
            },
    {
        Commission::parse(s)
    }
}

} // verus!
