//! The error of a failed native call.

use vstd::prelude::*;
use vstd::slice::slice_subrange;
use vstd::string::*;

verus! {

/// The characters that `String::from_utf8_lossy` makes of `bytes`.
pub uninterp spec fn utf8_lossy(bytes: Seq<u8>) -> Seq<char>;

/// Relies on `String::from_utf8_lossy`: the text depends on the bytes alone,
/// and no bytes give no text.
#[verifier::external_body]
fn decode_lossy(bytes: &[u8]) -> (r: String)
    ensures
        r@ == utf8_lossy(bytes@),
        bytes@.len() == 0 ==> r@.len() == 0,
{
    String::from_utf8_lossy(bytes).into_owned()
}

/// The decimal digit `d`, for `d < 10`.
pub open spec fn digit(d: nat) -> char {
    seq!['0', '1', '2', '3', '4', '5', '6', '7', '8', '9'][d as int]
}

/// The decimal digits of `n`, most significant first, without leading zeros.
pub open spec fn decimal(n: nat) -> Seq<char>
    decreases n,
{
    if n < 10 {
        seq![digit(n)]
    } else {
        decimal(n / 10).push(digit(n % 10))
    }
}

/// Relies on the `Display` of `u32` (through `to_string`): the decimal
/// digits of the number, without sign or leading zeros.
#[verifier::external_body]
fn decimal_string(n: u32) -> (r: String)
    ensures
        r@ == decimal(n as nat),
{
    n.to_string()
}

/// The number of bytes of a system message that make its text: the message
/// ends with a line break of two bytes, which is cut off.
pub open spec fn message_len(written: u32) -> nat {
    if written >= 2 { (written - 2) as nat } else { 0 }
}

/// The error type for the Win32 windowing system.
#[derive(Debug)]
pub struct Error {
    code: u32,
    message: Option<String>,
    function: &'static str,
}

impl Error {
    /// The error code the system gave.
    pub closed spec fn code_spec(&self) -> u32 {
        self.code
    }

    /// The system's text for the error code, if it had one.
    pub closed spec fn message_spec(&self) -> Option<Seq<char>> {
        match self.message {
            Some(m) => Some(m@),
            None => None,
        }
    }

    /// The name of the native function that failed.
    pub closed spec fn function_spec(&self) -> Seq<char> {
        self.function@
    }

    /// The error of `function`, with the system's error `code` and its text.
    pub fn new(function: &'static str, code: u32, message: Option<String>) -> (r: Self)
        ensures
            r.function_spec() == function@,
            r.code_spec() == code,
            r.message_spec() == (match message {
                Some(m) => Some(m@),
                None => None::<Seq<char>>,
            }),
    {
        Error { code, message, function }
    }

    /// The error of `function`, with the system's error `code` and the text
    /// that the system wrote for it: the first `written` bytes of `buffer`.
    ///
    /// No bytes written means the system had no text. Otherwise the text is
    /// the bytes before the closing line break, read as UTF-8, with each
    /// invalid sequence replaced.
    pub fn from_system_message(function: &'static str, code: u32, buffer: &[u8], written: u32) -> (r: Self)
        requires
            message_len(written) <= buffer@.len(),
        ensures
            r.function_spec() == function@,
            r.code_spec() == code,
            r.message_spec() == (if written == 0 {
                None
            } else {
                Some(utf8_lossy(buffer@.subrange(0, message_len(written) as int)))
            }),
    {
        let message = if written == 0 {
            None
        } else {
            let len = written.saturating_sub(2) as usize;
            let text = slice_subrange(buffer, 0, len);
            Some(decode_lossy(text))
        };
        Error { code, message, function }
    }

    /// The error code the system gave.
    pub fn code(&self) -> (r: u32)
        ensures
            r == self.code_spec(),
    {
        self.code
    }

    /// The name of the native function that failed.
    pub fn function(&self) -> (r: &'static str)
        ensures
            r@ == self.function_spec(),
    {
        self.function
    }

    /// The system's text for the error code, if it had one.
    pub fn message(&self) -> (r: Option<&str>)
        ensures
            match r {
                Some(m) => self.message_spec() == Some(m@),
                None => self.message_spec() is None,
            },
    {
        match &self.message {
            Some(m) => Some(m.as_str()),
            None => None,
        }
    }

    /// The error as a sentence: `<function> failed: <message> (error code:
    /// <code>)`, without the part after the colon when there is no message.
    pub fn describe(&self) -> (r: String)
        ensures
            r@ == self.function_spec() + " failed"@ + match self.message_spec() {
                Some(m) => ": "@ + m,
                None => Seq::<char>::empty(),
            } + " (error code: "@ + decimal(self.code_spec() as nat) + ")"@,
    {
        let mut text = String::from_str(self.function);
        text.append(" failed");
        match &self.message {
            Some(m) => {
                text.append(": ");
                text.append(m.as_str());
            },
            None => {},
        }
        text.append(" (error code: ");
        let digits = decimal_string(self.code);
        text.append(digits.as_str());
        text.append(")");
        text
    }
}

} // verus!
