//! Small value types shared by the boundary of the service.

use std::num::ParseIntError;
use vstd::prelude::*;
use vstd::std_specs::convert::FromSpecImpl;

verus! {

/// `std::num::ParseIntError`: why a text is no integer.
#[verifier::external_type_specification]
#[verifier::external_body]
pub struct ExParseIntError(ParseIntError);

/// Whether a character is one of the ten digits `0` to `9`.
pub open spec fn is_digit(c: char) -> bool {
    48 <= c as int <= 57
}

/// Whether a text is made of digits alone.
pub open spec fn all_digits(text: Seq<char>) -> bool {
    forall|i: int| 0 <= i < text.len() ==> is_digit(#[trigger] text[i])
}

/// The number that a run of digits stands for in base ten.
pub open spec fn digits_value(digits: Seq<char>) -> int
    decreases digits.len(),
{
    if digits.len() == 0 {
        0
    } else {
        10 * digits_value(digits.drop_last()) + (digits.last() as int - 48)
    }
}

/// The integer that a decimal text stands for: an optional sign, `+` or `-`,
/// then one digit or more, and nothing else. `None` for any other text, and
/// for a number that does not fit in 64 bits.
pub open spec fn decimal_i64(text: Seq<char>) -> Option<i64> {
    let signed = text.len() > 0 && (text[0] == '-' || text[0] == '+');
    let digits = if signed {
        text.skip(1)
    } else {
        text
    };
    let magnitude = digits_value(digits);
    let value = if signed && text[0] == '-' {
        -magnitude
    } else {
        magnitude
    };
    if digits.len() > 0 && all_digits(digits) && i64::MIN <= value <= i64::MAX {
        Some(value as i64)
    } else {
        None
    }
}

/// `str::parse::<i64>` of std, which reads an optional sign followed by
/// decimal digits and takes anything else, and a number out of range, for an
/// error: the integer is the one that `decimal_i64` gives, and an error comes
/// exactly where it gives none.
#[verifier::external_body]
fn parse_i64(text: &str) -> (parsed: Result<i64, ParseIntError>)
    ensures
        parsed matches Ok(value) ==> decimal_i64(text@) == Some(value),
        parsed is Err ==> decimal_i64(text@) is None,
{
    text.parse::<i64>()
}

/// Whether a decimal text is written the one way that has no spare
/// character: no `+`, no leading zero, and no sign before a zero.
pub open spec fn canonical_decimal(text: Seq<char>) -> bool {
    let negative = text.len() > 0 && text[0] == '-';
    let digits = if negative {
        text.skip(1)
    } else {
        text
    };
    &&& digits.len() > 0
    &&& all_digits(digits)
    &&& digits.len() > 1 ==> digits[0] != '0'
    &&& negative ==> digits[0] != '0'
}

/// `i64::to_string` of std, which writes an integer as `Display` does: in
/// decimal, with a `-` before a negative number and nothing that could be
/// left out. The text stands for the integer.
#[verifier::external_body]
fn decimal_text(value: i64) -> (text: String)
    ensures
        decimal_i64(text@) == Some(value),
        canonical_decimal(text@),
{
    value.to_string()
}

/// A 64-bit identifier that is handed to JavaScript clients as a decimal
/// string, since their numbers cannot hold every `i64`.
#[derive(Copy, Clone, Debug, PartialEq, Eq, Hash, Structural)]
pub struct JsSafeBigInt(pub i64);

impl JsSafeBigInt {
    /// The identifier as an integer.
    pub fn value(&self) -> (value: i64)
        ensures
            value == self.0,
    {
        self.0
    }

    /// The identifier in decimal: the text that stands for it and has no
    /// spare character. Reading the text back gives the identifier.
    pub fn to_string(&self) -> (text: String)
        ensures
            decimal_i64(text@) == Some(self.0),
            canonical_decimal(text@),
    {
        decimal_text(self.0)
    }

    /// Reads an identifier from its decimal text: an optional sign and
    /// digits. Any other text, and a number that does not fit in 64 bits, is
    /// an error.
    pub fn from_str(s: &str) -> (parsed: Result<JsSafeBigInt, ParseIntError>)
        ensures
            parsed matches Ok(id) ==> decimal_i64(s@) == Some(id.0),
            parsed is Err ==> decimal_i64(s@) is None,
    {
        match parse_i64(s) {
            Ok(value) => Ok(JsSafeBigInt(value)),
            Err(error) => Err(error),
        }
    }
}

/// The holder of the superuser credential: proof that a request presented
/// the shared secret.
#[derive(Debug)]
pub struct SuperUserBearer(());

/// Whether a presented token is the superuser's: a key is configured, and
/// the token equals it.
pub open spec fn is_superuser(superuser_key: Option<String>, token: String) -> bool {
    match superuser_key {
        Some(key) => token@ == key@,
        None => false,
    }
}

impl SuperUserBearer {
    /// Checks a bearer token against the configured superuser key. Without a
    /// configured key nobody is the superuser.
    pub fn check(superuser_key: &Option<String>, token: &String) -> (bearer: Option<
        SuperUserBearer,
    >)
        ensures
            bearer is Some <==> is_superuser(*superuser_key, *token),
    {
        match superuser_key {
            Some(key) => {
                if *token == *key {
                    Some(SuperUserBearer(()))
                } else {
                    None
                }
            },
            None => None,
        }
    }
}

/// More information for an error that is answered.
#[derive(Debug)]
pub struct Detail {
    pub detail: String,
}

impl From<String> for Detail {
    fn from(msg: String) -> (detail: Detail) {
        Detail { detail: msg }
    }
}

impl FromSpecImpl<String> for Detail {
    open spec fn obeys_from_spec() -> bool {
        true
    }

    open spec fn from_spec(msg: String) -> Detail {
        Detail { detail: msg }
    }
}

/// The answers of the programming interface.
#[derive(Debug)]
pub enum JsonResponse<T> {
    /// The request was a success.
    Success(T),
    /// Some part of the request was invalid.
    BadRequest(Detail),
    /// The provided access token has expired.
    Unauthorized,
    /// The permissions required to perform this action are lacking.
    Forbidden,
}

/// The status code that a response is answered with.
pub open spec fn response_status<T>(response: JsonResponse<T>) -> u16 {
    match response {
        JsonResponse::Success(_) => 200,
        JsonResponse::BadRequest(_) => 400,
        JsonResponse::Unauthorized => 401,
        JsonResponse::Forbidden => 403,
    }
}

impl<T> JsonResponse<T> {
    /// A success that carries `v`.
    pub fn ok(v: T) -> (response: JsonResponse<T>)
        ensures
            response == JsonResponse::Success(v),
    {
        JsonResponse::Success(v)
    }

    /// A refusal of the request, with the reason.
    pub fn bad_request(msg: String) -> (response: JsonResponse<T>)
        ensures
            response == JsonResponse::<T>::BadRequest(Detail { detail: msg }),
    {
        JsonResponse::BadRequest(Detail::from(msg))
    }

    /// The answer to a caller who lacks the permission.
    pub fn forbidden() -> (response: JsonResponse<T>)
        ensures
            response == JsonResponse::<T>::Forbidden,
    {
        JsonResponse::Forbidden
    }

    /// The answer to a caller whose token is not accepted.
    pub fn unauthorized() -> (response: JsonResponse<T>)
        ensures
            response == JsonResponse::<T>::Unauthorized,
    {
        JsonResponse::Unauthorized
    }

    /// The status code of the answer.
    pub fn status(&self) -> (code: u16)
        ensures
            code == response_status(*self),
    {
        match self {
            JsonResponse::Success(_) => 200,
            JsonResponse::BadRequest(_) => 400,
            JsonResponse::Unauthorized => 401,
            JsonResponse::Forbidden => 403,
        }
    }
}

} // verus!
