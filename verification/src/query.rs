//! Request validation: raw query parameters are parsed and bounds-checked
//! into a [`QrQuery`], or rejected with a classified [`ServiceError`].

use vstd::prelude::*;
use vstd::string::StrSliceExecFns;
use vstd::string::StringExecFns;

use crate::error::ServiceError;

verus! {

/// A validated generation request: the payload to encode and the requested
/// image size in pixels. Once validated, the size always lies in [50, 2000].
pub struct QrQuery {
    /// Data to encode in the QR code.
    pub data: String,
    /// Size of the QR code image in pixels.
    pub size: u32,
}

impl QrQuery {
    /// A validated request always carries an in-range size.
    pub open spec fn wf(&self) -> bool {
        50 <= self.size <= 2000
    }
}

/// Returns the default size for QR code images, used when the `size`
/// parameter is absent.
pub fn default_size() -> (r: u32)
    ensures
        r == 200u32,
{
    200
}

/// Whether `c` is a decimal digit.
pub open spec fn is_digit(c: char) -> bool {
    '0' as u32 <= c as u32 <= '9' as u32
}

/// Numeric value of the decimal digit `c`.
pub open spec fn digit_value(c: char) -> int {
    c as u32 - '0' as u32
}

/// Whether every character of `s` is a decimal digit.
pub open spec fn all_digits(s: Seq<char>) -> bool {
    forall|i: int| 0 <= i < s.len() ==> is_digit(#[trigger] s[i])
}

/// Value of `s` read as a base-10 numeral.
pub open spec fn digits_value(s: Seq<char>) -> int
    decreases s.len(),
{
    if s.len() == 0 {
        0
    } else {
        digits_value(s.drop_last()) * 10 + digit_value(s.last())
    }
}

/// What parsing `s` as an unsigned 32-bit integer yields: its numeric value
/// if `s` is a non-empty, all-digit string whose value fits, nothing
/// otherwise.
pub open spec fn parse_u32_spec(s: Seq<char>) -> Option<u32> {
    if s.len() > 0 && all_digits(s) && digits_value(s) <= u32::MAX {
        Some(digits_value(s) as u32)
    } else {
        None
    }
}

/// Parses `s` as an unsigned 32-bit decimal integer.
pub fn parse_u32(s: &str) -> (r: Option<u32>)
    ensures
        r == parse_u32_spec(s@),
{
    let len = s.unicode_len();
    if len == 0 {
        return None;
    }
    let mut val: u64 = 0;
    let mut over: bool = false;
    let mut i: usize = 0;
    while i < len
        invariant
            len == s@.len(),
            0 < len,
            i <= len,
            all_digits(s@.subrange(0, i as int)),
            !over ==> val == digits_value(s@.subrange(0, i as int)),
            over ==> digits_value(s@.subrange(0, i as int)) > u32::MAX,
            val <= u32::MAX,
        decreases len - i,
    {
        let c = s.get_char(i);
        let d = c as u32;
        if d < 48 || d > 57 {
            proof {
                assert(!is_digit(s@[i as int]));
            }
            return None;
        }
        proof {
            assert(s@.subrange(0, i + 1 as int).drop_last() =~= s@.subrange(0, i as int));
            assert(s@.subrange(0, i + 1 as int).last() == s@[i as int]);
            assert(forall|j: int|
                0 <= j < i + 1 ==> is_digit(#[trigger] s@.subrange(0, i + 1 as int)[j]));
        }
        let dv = (d - 48) as u64;
        if over || val * 10 + dv > 0xFFFF_FFFF {
            over = true;
        } else {
            val = val * 10 + dv;
        }
        i += 1;
    }
    proof {
        assert(s@.subrange(0, len as int) =~= s@);
    }
    if over {
        None
    } else {
        Some(val as u32)
    }
}

/// The size a request asks for: the default when the parameter is absent,
/// the parsed value when it parses, nothing when it does not.
pub open spec fn requested_size(size: Option<Seq<char>>) -> Option<u32> {
    match size {
        Option::None => Option::Some(200u32),
        Option::Some(s) => parse_u32_spec(s),
    }
}

/// View of an optional raw parameter.
pub open spec fn opt_view(o: Option<&str>) -> Option<Seq<char>> {
    match o {
        Option::None => Option::None,
        Option::Some(s) => Option::Some(s@),
    }
}

/// Maps raw query parameters into a validated [`QrQuery`], or fails with a
/// classified error: `data` is required, `size` defaults to 200 and must be
/// an unsigned integer in [50, 2000].
pub fn validate(data: Option<&str>, size: Option<&str>) -> (r: Result<QrQuery, ServiceError>)
    ensures
        match r {
            Ok(q) => {
                &&& opt_view(data) matches Some(d) && q.data@ == d
                &&& requested_size(opt_view(size)) == Some(q.size)
                &&& q.wf()
            },
            Err(e) => match e {
                ServiceError::MissingParameter => opt_view(data) is None,
                ServiceError::InvalidParameter => {
                    &&& opt_view(data) is Some
                    &&& requested_size(opt_view(size)) is None
                },
                ServiceError::OutOfRange => {
                    &&& opt_view(data) is Some
                    &&& requested_size(opt_view(size)) matches Some(n) && !(50 <= n <= 2000)
                },
                _ => false,
            },
        },
{
    let d = match data {
        Some(d) => d,
        None => {
            return Err(ServiceError::MissingParameter);
        },
    };
    let n = match size {
        None => default_size(),
        Some(s) => match parse_u32(s) {
            Some(n) => n,
            None => {
                return Err(ServiceError::InvalidParameter);
            },
        },
    };
    if n < 50 || n > 2000 {
        return Err(ServiceError::OutOfRange);
    }
    Ok(QrQuery { data: String::from_str(d), size: n })
}

} // verus!
