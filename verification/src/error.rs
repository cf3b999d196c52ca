//! The library's own handler error: a status code and a message.

use vstd::prelude::*;
use vstd::string::*;

verus! {

/// An error that a handler may return; the framework turns it into a
/// response with that status and the message as its body.
#[derive(Debug)]
pub struct GramStdHttpErr {
    pub status: u16,
    pub msg: String,
}

/// The character of a decimal digit.
pub open spec fn digit_char(d: nat) -> char
    recommends
        d < 10,
{
    if d == 0 {
        '0'
    } else if d == 1 {
        '1'
    } else if d == 2 {
        '2'
    } else if d == 3 {
        '3'
    } else if d == 4 {
        '4'
    } else if d == 5 {
        '5'
    } else if d == 6 {
        '6'
    } else if d == 7 {
        '7'
    } else if d == 8 {
        '8'
    } else {
        '9'
    }
}

/// A number in decimal, without leading zeros.
pub open spec fn decimal_text(n: nat) -> Seq<char>
    decreases n,
{
    if n < 10 {
        seq![digit_char(n)]
    } else {
        decimal_text(n / 10).push(digit_char(n % 10))
    }
}

/// What `to_string` gives for an error with this status and message.
pub open spec fn error_text(status: u16, msg: Seq<char>) -> Seq<char> {
    "Http Error with status code: "@ + decimal_text(status as nat) + " and Message: "@ + msg
}

/// The text of one decimal digit.
fn digit_text(d: u16) -> (text: &'static str)
    requires
        d < 10,
    ensures
        text@ == seq![digit_char(d as nat)],
{
    proof {
        reveal_strlit("0");
        reveal_strlit("1");
        reveal_strlit("2");
        reveal_strlit("3");
        reveal_strlit("4");
        reveal_strlit("5");
        reveal_strlit("6");
        reveal_strlit("7");
        reveal_strlit("8");
        reveal_strlit("9");
    }
    let text = if d == 0 {
        "0"
    } else if d == 1 {
        "1"
    } else if d == 2 {
        "2"
    } else if d == 3 {
        "3"
    } else if d == 4 {
        "4"
    } else if d == 5 {
        "5"
    } else if d == 6 {
        "6"
    } else if d == 7 {
        "7"
    } else if d == 8 {
        "8"
    } else {
        "9"
    };
    assert(text@ =~= seq![digit_char(d as nat)]);
    text
}

/// A number in decimal.
pub fn decimal(n: u16) -> (text: String)
    ensures
        text@ == decimal_text(n as nat),
    decreases n,
{
    if n < 10 {
        String::from_str(digit_text(n))
    } else {
        let text = decimal(n / 10).concat(digit_text(n % 10));
        assert(text@ =~= decimal_text(n as nat / 10).push(digit_char(n as nat % 10)));
        text
    }
}

impl GramStdHttpErr {
    /// An error with the status `status` and the message `msg`.
    pub fn new(status: u16, msg: String) -> (err: Self)
        ensures
            err.status == status,
            err.msg == msg,
    {
        Self { status, msg }
    }

    /// The error as one line of text.
    pub fn to_string(&self) -> (text: String)
        ensures
            text@ == error_text(self.status, self.msg@),
    {
        let code = decimal(self.status);
        String::from_str("Http Error with status code: ").concat(code.as_str()).concat(
            " and Message: ",
        ).concat(self.msg.as_str())
    }
}

} // verus!
