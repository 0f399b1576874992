use vstd::prelude::*;
use vstd::string::StringExecFns;

verus! {

/// The typed errors the store returns. Every failure is reported to the
/// caller as one of these; no operation panics or partially applies.
#[derive(Debug)]
pub enum MessageError {
    /// The operation referenced an identifier no live record carries.
    NotFound { msg: String },
    /// A required text field of the payload was empty.
    InvalidInput { msg: String },
    /// The combined length of the payload's text fields exceeds the ceiling.
    SizeExceeded { msg: String },
    /// The caller is not the owner of the record it tried to mutate.
    Unauthorized { msg: String },
}

/// `e` is the `NotFound` error whose message names `id`.
pub open spec fn is_not_found(e: MessageError, id: u64) -> bool {
    e matches MessageError::NotFound { msg } && msg@ == not_found_message(id)
}

/// `e` is the `InvalidInput` error.
pub open spec fn is_invalid_input(e: MessageError) -> bool {
    e matches MessageError::InvalidInput { msg } && msg@ == invalid_input_message()
}

/// `e` is the `SizeExceeded` error.
pub open spec fn is_size_exceeded(e: MessageError) -> bool {
    e matches MessageError::SizeExceeded { msg } && msg@ == size_exceeded_message()
}

/// `e` is the `Unauthorized` error.
pub open spec fn is_unauthorized(e: MessageError) -> bool {
    e matches MessageError::Unauthorized { msg } && msg@ == unauthorized_message()
}

/// The character a single decimal digit prints as.
pub open spec fn digit_char(d: nat) -> char {
    if d == 0 {
        '0'
    } else if d == 1 {
        '1'
    } else if d == 2 {
        '2'
    } else if d == 3 {
        '3'
    } else if d == 4 {
        '4'
    } else if d == 5 {
        '5'
    } else if d == 6 {
        '6'
    } else if d == 7 {
        '7'
    } else if d == 8 {
        '8'
    } else {
        '9'
    }
}

/// The decimal digits of `n`, most significant first, with no leading zeros
/// (a single `'0'` for zero).
pub open spec fn dec_digits(n: nat) -> Seq<char>
    decreases n,
{
    if n < 10 {
        seq![digit_char(n)]
    } else {
        dec_digits(n / 10) + seq![digit_char(n % 10)]
    }
}

/// A single decimal digit as a one-character string.
fn digit_string(d: u64) -> (r: String)
    requires
        d < 10,
    ensures
        r@ == seq![digit_char(d as nat)],
{
    proof {
        reveal_strlit("0");
        reveal_strlit("1");
        reveal_strlit("2");
        reveal_strlit("3");
        reveal_strlit("4");
        reveal_strlit("5");
        reveal_strlit("6");
        reveal_strlit("7");
        reveal_strlit("8");
        reveal_strlit("9");
    }
    let s: &str = if d == 0 {
        "0"
    } else if d == 1 {
        "1"
    } else if d == 2 {
        "2"
    } else if d == 3 {
        "3"
    } else if d == 4 {
        "4"
    } else if d == 5 {
        "5"
    } else if d == 6 {
        "6"
    } else if d == 7 {
        "7"
    } else if d == 8 {
        "8"
    } else {
        "9"
    };
    proof {
        assert(s@ =~= seq![digit_char(d as nat)]);
    }
    String::from_str(s)
}

/// Prints `n` in decimal.
pub fn dec_string(n: u64) -> (r: String)
    ensures
        r@ == dec_digits(n as nat),
    decreases n,
{
    if n < 10 {
        digit_string(n)
    } else {
        let mut s = dec_string(n / 10);
        let d = digit_string(n % 10);
        s.append(d.as_str());
        s
    }
}

/// The message carried by a `NotFound` error for the given identifier.
pub open spec fn not_found_message(id: u64) -> Seq<char> {
    "Message with id="@ + dec_digits(id as nat) + " not found."@
}

/// The message carried by an `InvalidInput` error.
pub open spec fn invalid_input_message() -> Seq<char> {
    "All fields must be non-empty."@
}

/// The message carried by a `SizeExceeded` error.
pub open spec fn size_exceeded_message() -> Seq<char> {
    "Combined field length exceeds the configured maximum."@
}

/// The message carried by an `Unauthorized` error.
pub open spec fn unauthorized_message() -> Seq<char> {
    "Caller is not the owner of the message."@
}

/// Builds the `NotFound` error whose message names the missing identifier.
pub fn not_found_error(id: u64) -> (e: MessageError)
    ensures
        e matches MessageError::NotFound { msg } && msg@ == not_found_message(id),
{
    let mut s = String::from_str("Message with id=");
    let digits = dec_string(id);
    s.append(digits.as_str());
    s.append(" not found.");
    proof {
        assert(s@ =~= not_found_message(id));
    }
    MessageError::NotFound { msg: s }
}

/// Builds the `InvalidInput` error.
pub fn invalid_input_error() -> (e: MessageError)
    ensures
        e matches MessageError::InvalidInput { msg } && msg@ == invalid_input_message(),
{
    MessageError::InvalidInput { msg: String::from_str("All fields must be non-empty.") }
}

/// Builds the `SizeExceeded` error.
pub fn size_exceeded_error() -> (e: MessageError)
    ensures
        e matches MessageError::SizeExceeded { msg } && msg@ == size_exceeded_message(),
{
    MessageError::SizeExceeded {
        msg: String::from_str("Combined field length exceeds the configured maximum."),
    }
}

/// Builds the `Unauthorized` error.
pub fn unauthorized_error() -> (e: MessageError)
    ensures
        e matches MessageError::Unauthorized { msg } && msg@ == unauthorized_message(),
{
    MessageError::Unauthorized { msg: String::from_str("Caller is not the owner of the message.") }
}

} // verus!
