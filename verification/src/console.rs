//! The observable texts of the lifecycle: the one outbound payload and the
//! console lines, each rendered exactly as its spec says. The byte length
//! of a binary frame is rendered in decimal by a verified formatter.

use vstd::prelude::*;
use vstd::string::StringExecFns;
use crate::frames::Report;

verus! {

/// The decimal digit character for `d`.
pub open spec fn digit_char(d: int) -> char {
    if d == 0 {
        '0'
    } else if d == 1 {
        '1'
    } else if d == 2 {
        '2'
    } else if d == 3 {
        '3'
    } else if d == 4 {
        '4'
    } else if d == 5 {
        '5'
    } else if d == 6 {
        '6'
    } else if d == 7 {
        '7'
    } else if d == 8 {
        '8'
    } else {
        '9'
    }
}

/// The usual decimal rendering of `n`: no sign, no leading zero except for
/// zero itself.
pub open spec fn decimal_of(n: nat) -> Seq<char>
    decreases n,
{
    if n < 10 {
        seq![digit_char(n as int)]
    } else {
        decimal_of(n / 10) + seq![digit_char((n % 10) as int)]
    }
}

/// The one-character string for a single decimal digit.
fn digit_str(d: usize) -> (r: &'static str)
    requires
        d < 10,
    ensures
        r@ == seq![digit_char(d as int)],
{
    proof {
        reveal_strlit("0");
        reveal_strlit("1");
        reveal_strlit("2");
        reveal_strlit("3");
        reveal_strlit("4");
        reveal_strlit("5");
        reveal_strlit("6");
        reveal_strlit("7");
        reveal_strlit("8");
        reveal_strlit("9");
    }
    let r: &'static str = if d == 0 {
        "0"
    } else if d == 1 {
        "1"
    } else if d == 2 {
        "2"
    } else if d == 3 {
        "3"
    } else if d == 4 {
        "4"
    } else if d == 5 {
        "5"
    } else if d == 6 {
        "6"
    } else if d == 7 {
        "7"
    } else if d == 8 {
        "8"
    } else {
        "9"
    };
    proof {
        assert(r@ =~= seq![digit_char(d as int)]);
    }
    r
}

/// Render `n` in decimal.
pub fn decimal_string(n: usize) -> (s: String)
    ensures
        s@ == decimal_of(n as nat),
    decreases n,
{
    if n < 10 {
        digit_str(n).to_owned()
    } else {
        let mut s = decimal_string(n / 10);
        s.append(digit_str(n % 10));
        s
    }
}

/// The console line for one read-task report.
pub open spec fn report_line(rep: Report) -> Seq<char> {
    match rep {
        Report::ReceivedText(t) => "Received: "@ + t@,
        Report::ReceivedBinary(n) => "Received binary data: "@ + decimal_of(n as nat)
            + " bytes"@,
        Report::ClosedByServer => "Connection closed by server"@,
        Report::ReceiveFailed(e) => "Error receiving message: "@ + e@,
    }
}

/// Render one read-task report as its console line.
pub fn render_report(rep: &Report) -> (s: String)
    ensures
        s@ == report_line(*rep),
{
    match rep {
        Report::ReceivedText(t) => {
            let mut s: String = "Received: ".to_owned();
            s.append(t.as_str());
            s
        },
        Report::ReceivedBinary(n) => {
            let mut s: String = "Received binary data: ".to_owned();
            let digits = decimal_string(*n);
            s.append(digits.as_str());
            s.append(" bytes");
            s
        },
        Report::ClosedByServer => "Connection closed by server".to_owned(),
        Report::ReceiveFailed(e) => {
            let mut s: String = "Error receiving message: ".to_owned();
            s.append(e.as_str());
            s
        },
    }
}

/// The one outbound text payload: the greeting the client sends.
pub fn greeting() -> (s: String)
    ensures
        s@ == "Hello from Rust!"@,
{
    "Hello from Rust!".to_owned()
}

/// The console line announcing the connection attempt to `endpoint`.
pub fn connecting_line(endpoint: &str) -> (s: String)
    ensures
        s@ == "Connecting to "@ + endpoint@,
{
    let mut s: String = "Connecting to ".to_owned();
    s.append(endpoint);
    s
}

/// The console line reporting a completed handshake.
pub fn connected_line() -> (s: String)
    ensures
        s@ == "Connected to WebSocket server"@,
{
    "Connected to WebSocket server".to_owned()
}

/// The console line confirming that the greeting was sent.
pub fn sent_line() -> (s: String)
    ensures
        s@ == "Sent: Hello from Rust!"@,
{
    "Sent: Hello from Rust!".to_owned()
}

} // verus!
