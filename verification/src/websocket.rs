//! The duplex-connection surface: close codes, close reasons, framed
//! messages, and the per-message step of the connection loop.
//!
//! The transport adapter owns the socket itself; what stands here is the
//! pure part — the numbering of close codes and the decision, for each
//! received frame, of what to send back.

use vstd::prelude::*;
use vstd::string::StringExecFns;

verus! {

/// Status code used to indicate why an endpoint is closing the
/// connection.
#[derive(Debug, Eq, PartialEq, Clone, Copy, Structural)]
pub enum CloseCode {
    /// A normal closure: the purpose of the connection is fulfilled.
    Normal,
    /// The endpoint is going away, as a server shutting down or a browser
    /// navigating away.
    Away,
    /// The endpoint saw a protocol error.
    Protocol,
    /// The endpoint received a type of data it cannot accept.
    Unsupported,
    /// An abnormal closure: the connection was dropped with no close
    /// frame.
    Abnormal,
    /// The endpoint received data inconsistent with the message's type.
    Invalid,
    /// The endpoint received a message that violates its policy.
    Policy,
    /// The endpoint received a message too big to process.
    Size,
    /// The client expected the server to negotiate an extension that the
    /// server did not return.
    Extension,
    /// The server hit an unexpected condition that prevented it from
    /// fulfilling the request.
    Error,
    /// The server is restarting.
    Restart,
    /// The server is overloaded; the client should try elsewhere or
    /// later.
    Again,
    Tls,
    Other(u16),
}

/// The wire number of a close code.
pub open spec fn close_code_num(code: CloseCode) -> u16 {
    match code {
        CloseCode::Normal => 1000,
        CloseCode::Away => 1001,
        CloseCode::Protocol => 1002,
        CloseCode::Unsupported => 1003,
        CloseCode::Abnormal => 1006,
        CloseCode::Invalid => 1007,
        CloseCode::Policy => 1008,
        CloseCode::Size => 1009,
        CloseCode::Extension => 1010,
        CloseCode::Error => 1011,
        CloseCode::Restart => 1012,
        CloseCode::Again => 1013,
        CloseCode::Tls => 1015,
        CloseCode::Other(code) => code,
    }
}

/// The close code a wire number names.
pub open spec fn close_code_of(code: u16) -> CloseCode {
    if code == 1000 {
        CloseCode::Normal
    } else if code == 1001 {
        CloseCode::Away
    } else if code == 1002 {
        CloseCode::Protocol
    } else if code == 1003 {
        CloseCode::Unsupported
    } else if code == 1006 {
        CloseCode::Abnormal
    } else if code == 1007 {
        CloseCode::Invalid
    } else if code == 1008 {
        CloseCode::Policy
    } else if code == 1009 {
        CloseCode::Size
    } else if code == 1010 {
        CloseCode::Extension
    } else if code == 1011 {
        CloseCode::Error
    } else if code == 1012 {
        CloseCode::Restart
    } else if code == 1013 {
        CloseCode::Again
    } else if code == 1015 {
        CloseCode::Tls
    } else {
        CloseCode::Other(code)
    }
}

impl From<CloseCode> for u16 {
    /// The wire number of this close code.
    fn from(code: CloseCode) -> (r: u16)
        ensures
            r == close_code_num(code),
    {
        match code {
            CloseCode::Normal => 1000,
            CloseCode::Away => 1001,
            CloseCode::Protocol => 1002,
            CloseCode::Unsupported => 1003,
            CloseCode::Abnormal => 1006,
            CloseCode::Invalid => 1007,
            CloseCode::Policy => 1008,
            CloseCode::Size => 1009,
            CloseCode::Extension => 1010,
            CloseCode::Error => 1011,
            CloseCode::Restart => 1012,
            CloseCode::Again => 1013,
            CloseCode::Tls => 1015,
            CloseCode::Other(code) => code,
        }
    }
}

impl vstd::std_specs::convert::FromSpecImpl<CloseCode> for u16 {
    open spec fn obeys_from_spec() -> bool {
        true
    }

    open spec fn from_spec(code: CloseCode) -> u16 {
        close_code_num(code)
    }
}

impl From<u16> for CloseCode {
    /// The close code this wire number names.
    fn from(code: u16) -> (r: CloseCode)
        ensures
            r == close_code_of(code),
    {
        if code == 1000 {
            CloseCode::Normal
        } else if code == 1001 {
            CloseCode::Away
        } else if code == 1002 {
            CloseCode::Protocol
        } else if code == 1003 {
            CloseCode::Unsupported
        } else if code == 1006 {
            CloseCode::Abnormal
        } else if code == 1007 {
            CloseCode::Invalid
        } else if code == 1008 {
            CloseCode::Policy
        } else if code == 1009 {
            CloseCode::Size
        } else if code == 1010 {
            CloseCode::Extension
        } else if code == 1011 {
            CloseCode::Error
        } else if code == 1012 {
            CloseCode::Restart
        } else if code == 1013 {
            CloseCode::Again
        } else if code == 1015 {
            CloseCode::Tls
        } else {
            CloseCode::Other(code)
        }
    }
}

impl vstd::std_specs::convert::FromSpecImpl<u16> for CloseCode {
    open spec fn obeys_from_spec() -> bool {
        true
    }

    open spec fn from_spec(code: u16) -> CloseCode {
        close_code_of(code)
    }
}

/// Reason for closing the connection: an exit code and an optional
/// description.
#[derive(Debug, Eq, PartialEq, Clone)]
pub struct CloseReason {
    /// Exit code.
    pub code: CloseCode,
    /// Optional description of the exit code.
    pub description: Option<String>,
}

impl From<CloseCode> for CloseReason {
    /// A reason carrying this code alone, with no description.
    fn from(code: CloseCode) -> (r: CloseReason)
        ensures
            r.code == code,
            r.description is None,
    {
        CloseReason { code, description: None }
    }
}

impl vstd::std_specs::convert::FromSpecImpl<CloseCode> for CloseReason {
    open spec fn obeys_from_spec() -> bool {
        true
    }

    open spec fn from_spec(code: CloseCode) -> CloseReason {
        CloseReason { code, description: None }
    }
}

impl From<(CloseCode, String)> for CloseReason {
    /// A reason carrying a code and its description.
    fn from(info: (CloseCode, String)) -> (r: CloseReason)
        ensures
            r.code == info.0,
            r.description == Some(info.1),
    {
        CloseReason { code: info.0, description: Some(info.1) }
    }
}

impl vstd::std_specs::convert::FromSpecImpl<(CloseCode, String)> for CloseReason {
    open spec fn obeys_from_spec() -> bool {
        true
    }

    open spec fn from_spec(info: (CloseCode, String)) -> CloseReason {
        CloseReason { code: info.0, description: Some(info.1) }
    }
}

/// One framed message of the duplex connection. Binary payloads are held
/// as plain bytes.
#[derive(Debug, PartialEq)]
pub enum Message {
    /// Text message.
    Text(String),
    /// Binary message.
    Binary(Vec<u8>),
    /// Ping message.
    Ping(String),
    /// Pong message.
    Pong(String),
    /// Close message with optional reason.
    Close(Option<CloseReason>),
    /// No-op.
    Nop,
}

/// The decimal digit character for a value below ten.
pub open spec fn digit_char(d: nat) -> char {
    ((48 + d) as u8) as char
}

/// The decimal digits of `n`, most significant first.
pub open spec fn dec_digits(n: nat) -> Seq<char>
    decreases n,
{
    if n < 10 {
        seq![digit_char(n)]
    } else {
        dec_digits(n / 10).push(digit_char(n % 10))
    }
}

/// The one-character string for a decimal digit.
fn digit_str(d: u64) -> (r: &'static str)
    requires
        d < 10,
    ensures
        r@ == seq![digit_char(d as nat)],
{
    let r: &'static str = match d {
        0 => "0",
        1 => "1",
        2 => "2",
        3 => "3",
        4 => "4",
        5 => "5",
        6 => "6",
        7 => "7",
        8 => "8",
        _ => "9",
    };
    proof {
        reveal_strlit("0");
        reveal_strlit("1");
        reveal_strlit("2");
        reveal_strlit("3");
        reveal_strlit("4");
        reveal_strlit("5");
        reveal_strlit("6");
        reveal_strlit("7");
        reveal_strlit("8");
        reveal_strlit("9");
        assert(r@ =~= seq![digit_char(d as nat)]);
    }
    r
}

/// Appends the decimal digits of `n` to `out`.
fn push_decimal(out: &mut String, n: u64)
    ensures
        final(out)@ == old(out)@ + dec_digits(n as nat),
    decreases n,
{
    if n < 10 {
        out.append(digit_str(n));
    } else {
        push_decimal(out, n / 10);
        out.append(digit_str(n % 10));
        proof {
            assert(out@ =~= old(out)@ + dec_digits(n as nat));
        }
    }
}

/// The decimal rendering of `n`.
pub fn u64_to_decimal(n: u64) -> (s: String)
    ensures
        s@ == dec_digits(n as nat),
{
    let mut s = String::new();
    push_decimal(&mut s, n);
    proof {
        assert(Seq::<char>::empty() + dec_digits(n as nat) =~= dec_digits(n as nat));
    }
    s
}

/// What the connection loop does with one received frame.
#[derive(Debug, PartialEq)]
pub enum SocketAction {
    /// Send this text back and keep the loop running.
    SendText(String),
    /// The peer closed: leave the loop.
    Stop,
    /// Keepalive traffic: nothing to do.
    Ignore,
}

/// Decides the reply to one received frame: text is echoed back, a binary
/// payload is acknowledged by its length, a close frame ends the loop,
/// and keepalive frames are ignored.
pub fn socket_step(msg: &Message) -> (a: SocketAction)
    ensures
        msg matches Message::Text(s) ==> a matches SocketAction::SendText(r) && r@
            == "Echo back text: "@ + s@,
        msg matches Message::Binary(b) ==> a matches SocketAction::SendText(r) && r@
            == "Received bytes of length: "@ + dec_digits(b@.len() as nat),
        msg matches Message::Close(_) ==> a is Stop,
        (msg matches Message::Ping(_) || msg matches Message::Pong(_) || msg is Nop) ==> a
            is Ignore,
{
    match msg {
        Message::Text(s) => {
            let mut r = String::new();
            r.append("Echo back text: ");
            r.append(s.as_str());
            proof {
                assert(r@ =~= "Echo back text: "@ + s@);
            }
            SocketAction::SendText(r)
        },
        Message::Binary(b) => {
            let mut r = String::new();
            r.append("Received bytes of length: ");
            let digits = u64_to_decimal(b.len() as u64);
            r.append(digits.as_str());
            proof {
                assert(r@ =~= "Received bytes of length: "@ + dec_digits(b@.len() as nat));
            }
            SocketAction::SendText(r)
        },
        Message::Close(_) => SocketAction::Stop,
        Message::Ping(_) => SocketAction::Ignore,
        Message::Pong(_) => SocketAction::Ignore,
        Message::Nop => SocketAction::Ignore,
    }
}

/// The close reason used when a send fails: the server-error code and the
/// failure's description.
pub fn error_close_reason(detail: &str) -> (r: CloseReason)
    ensures
        r.code == CloseCode::Error,
        r.description matches Some(d) && d@ == "Error occured: "@ + detail@,
{
    let mut text = String::new();
    text.append("Error occured: ");
    text.append(detail);
    proof {
        assert(text@ =~= "Error occured: "@ + detail@);
    }
    CloseReason { code: CloseCode::Error, description: Some(text) }
}

} // verus!
