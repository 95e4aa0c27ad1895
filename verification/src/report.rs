//! The status report: the diagnostic text that the entry point hands back to
//! its host, one datum per line.

use vstd::prelude::*;
use vstd::string::*;
use crate::handle::Locality;
use crate::status::{BridgeError, Status};

verus! {

/// The character of a decimal digit.
pub open spec fn digit(d: nat) -> char {
    if d == 0 {
        '0'
    } else if d == 1 {
        '1'
    } else if d == 2 {
        '2'
    } else if d == 3 {
        '3'
    } else if d == 4 {
        '4'
    } else if d == 5 {
        '5'
    } else if d == 6 {
        '6'
    } else if d == 7 {
        '7'
    } else if d == 8 {
        '8'
    } else {
        '9'
    }
}

/// A number in decimal, without leading zeros.
pub open spec fn decimal(n: nat) -> Seq<char>
    decreases n,
{
    if n < 10 {
        seq![digit(n)]
    } else {
        decimal(n / 10).push(digit(n % 10))
    }
}

/// An integer in decimal, with a minus sign where it is negative.
pub open spec fn signed_decimal(n: int) -> Seq<char> {
    if n < 0 {
        seq!['-'] + decimal((-n) as nat)
    } else {
        decimal(n as nat)
    }
}

/// The texts, each but the first preceded by the separator.
pub open spec fn joined(texts: Seq<Seq<char>>, separator: Seq<char>) -> Seq<char>
    decreases texts.len(),
{
    if texts.len() == 0 {
        Seq::empty()
    } else if texts.len() == 1 {
        texts[0]
    } else {
        joined(texts.drop_last(), separator) + separator + texts.last()
    }
}

/// Bytes as a list of decimal numbers in square brackets.
pub open spec fn bytes_text(bytes: Seq<u8>) -> Seq<char> {
    seq!['['] + joined(Seq::new(bytes.len(), |i: int| decimal(bytes[i] as nat)), seq![',', ' '])
        + seq![']']
}

/// A status in words.
pub open spec fn status_text(status: Status) -> Seq<char> {
    match status {
        Status::Success => "OK"@,
        Status::InvalidTarget => "INVALID_TARGET"@,
        Status::Unauthorized => "UNAUTHORIZED"@,
        Status::MalformedIdentity => "MALFORMED_IDENTITY"@,
        Status::AlreadyRegistered => "ALREADY_REGISTERED"@,
        Status::SessionUnusable => "SESSION_UNUSABLE"@,
        Status::Rejected(code) => "REJECTED("@ + signed_decimal(code as int) + ")"@,
        Status::Unreachable => "UNREACHABLE"@,
    }
}

/// An error in words.
pub open spec fn error_text(error: BridgeError) -> Seq<char> {
    match error {
        BridgeError::HandleAcquisition => "HANDLE_ACQUISITION"@,
        BridgeError::InterfaceCast => "INTERFACE_CAST"@,
        BridgeError::RegistrationFailure => "REGISTRATION_FAILURE"@,
        BridgeError::DispatchCallFailure => "DISPATCH_CALL_FAILURE"@,
        BridgeError::Attachment => "ATTACHMENT"@,
    }
}

/// The line that says whether the host reference became a handle.
pub open spec fn acquisition_line(acquired: bool) -> Seq<char> {
    if acquired {
        "got SpIBinder"@
    } else {
        "failed to get SpIBinder"@
    }
}

/// The line that says where the peer of the proxy runs.
pub open spec fn locality_line(locality: Locality) -> Seq<char> {
    if locality == Locality::Remote {
        "remote service"@
    } else {
        "local service"@
    }
}

/// The line that says what a session failed with.
pub open spec fn failure_line(error: BridgeError) -> Seq<char> {
    labelled("session failed"@, error_text(error))
}

/// A labelled datum: the label, a colon and a space, the value.
pub open spec fn labelled(label: Seq<char>, value: Seq<char>) -> Seq<char> {
    label + seq![':', ' '] + value
}

fn digit_text(d: u64) -> (text: &'static str)
    requires
        d < 10,
    ensures
        text@ == seq![digit(d as nat)],
{
    proof {
        reveal_strlit("0");
        reveal_strlit("1");
        reveal_strlit("2");
        reveal_strlit("3");
        reveal_strlit("4");
        reveal_strlit("5");
        reveal_strlit("6");
        reveal_strlit("7");
        reveal_strlit("8");
        reveal_strlit("9");
    }
    let text = if d == 0 {
        "0"
    } else if d == 1 {
        "1"
    } else if d == 2 {
        "2"
    } else if d == 3 {
        "3"
    } else if d == 4 {
        "4"
    } else if d == 5 {
        "5"
    } else if d == 6 {
        "6"
    } else if d == 7 {
        "7"
    } else if d == 8 {
        "8"
    } else {
        "9"
    };
    assert(text@ =~= seq![digit(d as nat)]);
    text
}

fn push_decimal(out: &mut String, n: u64)
    ensures
        final(out)@ == old(out)@ + decimal(n as nat),
    decreases n,
{
    if n >= 10 {
        push_decimal(out, n / 10);
    }
    out.append(digit_text(n % 10));
    assert(out@ =~= old(out)@ + decimal(n as nat));
}

/// Writes a number in decimal.
pub fn decimal_text(n: u64) -> (text: String)
    ensures
        text@ == decimal(n as nat),
{
    let mut text = String::new();
    push_decimal(&mut text, n);
    assert(text@ =~= decimal(n as nat));
    text
}

fn push_signed(out: &mut String, n: i32)
    ensures
        final(out)@ == old(out)@ + signed_decimal(n as int),
{
    if n < 0 {
        proof {
            reveal_strlit("-");
        }
        out.append("-");
        let wide: i64 = n as i64;
        push_decimal(out, (0 - wide) as u64);
        assert(out@ =~= old(out)@ + signed_decimal(n as int));
    } else {
        push_decimal(out, n as u64);
    }
}

fn push_bytes(out: &mut String, bytes: &[u8])
    ensures
        final(out)@ == old(out)@ + bytes_text(bytes@),
{
    proof {
        reveal_strlit("[");
        reveal_strlit("]");
        reveal_strlit(", ");
    }
    let ghost start = out@;
    let ghost numbers = Seq::new(bytes@.len(), |i: int| decimal(bytes@[i] as nat));
    let ghost separator = seq![',', ' '];
    out.append("[");
    let mut i: usize = 0;
    while i < bytes.len()
        invariant
            i <= bytes@.len(),
            numbers == Seq::new(bytes@.len(), |i: int| decimal(bytes@[i] as nat)),
            separator == seq![',', ' '],
            ", "@ == separator,
            out@ == start + seq!['['] + joined(numbers.take(i as int), separator),
        decreases bytes@.len() - i,
    {
        let ghost before = out@;
        if i > 0 {
            out.append(", ");
        }
        push_decimal(out, bytes[i] as u64);
        proof {
            let done = numbers.take(i as int + 1);
            assert(done.drop_last() =~= numbers.take(i as int));
            assert(done.last() == decimal(bytes@[i as int] as nat));
            if i == 0 {
                assert(joined(numbers.take(0), separator) =~= Seq::<char>::empty());
                assert(out@ =~= start + seq!['['] + joined(done, separator));
            } else {
                assert(out@ =~= start + seq!['['] + joined(done, separator));
            }
        }
        i = i + 1;
    }
    out.append("]");
    proof {
        assert(numbers.take(bytes@.len() as int) =~= numbers);
        assert(out@ =~= start + bytes_text(bytes@));
    }
}

/// Writes bytes as a list of decimal numbers in square brackets.
pub fn bytes_to_text(bytes: &[u8]) -> (text: String)
    ensures
        text@ == bytes_text(bytes@),
{
    let mut text = String::new();
    push_bytes(&mut text, bytes);
    assert(text@ =~= bytes_text(bytes@));
    text
}

/// Writes a status in words.
pub fn status_to_text(status: Status) -> (text: String)
    ensures
        text@ == status_text(status),
{
    let mut text = String::new();
    match status {
        Status::Success => text.append("OK"),
        Status::InvalidTarget => text.append("INVALID_TARGET"),
        Status::Unauthorized => text.append("UNAUTHORIZED"),
        Status::MalformedIdentity => text.append("MALFORMED_IDENTITY"),
        Status::AlreadyRegistered => text.append("ALREADY_REGISTERED"),
        Status::SessionUnusable => text.append("SESSION_UNUSABLE"),
        Status::Rejected(code) => {
            text.append("REJECTED(");
            push_signed(&mut text, code);
            text.append(")");
        },
        Status::Unreachable => text.append("UNREACHABLE"),
    }
    assert(text@ =~= status_text(status));
    text
}

/// Writes an error in words.
pub fn error_to_text(error: BridgeError) -> (text: &'static str)
    ensures
        text@ == error_text(error),
{
    match error {
        BridgeError::HandleAcquisition => "HANDLE_ACQUISITION",
        BridgeError::InterfaceCast => "INTERFACE_CAST",
        BridgeError::RegistrationFailure => "REGISTRATION_FAILURE",
        BridgeError::DispatchCallFailure => "DISPATCH_CALL_FAILURE",
        BridgeError::Attachment => "ATTACHMENT",
    }
}

/// The lines of a status report, in the order in which they were noted.
#[derive(Debug)]
pub struct StatusReport {
    lines: Vec<String>,
}

impl View for StatusReport {
    type V = Seq<Seq<char>>;

    closed spec fn view(&self) -> Seq<Seq<char>> {
        Seq::new(self.lines@.len(), |i: int| self.lines@[i]@)
    }
}

impl StatusReport {
    /// The report without lines.
    pub fn new() -> (report: StatusReport)
        ensures
            report@ == Seq::<Seq<char>>::empty(),
    {
        let report = StatusReport { lines: Vec::new() };
        assert(report@ =~= Seq::<Seq<char>>::empty());
        report
    }

    /// The number of lines.
    pub fn len(&self) -> (count: usize)
        ensures
            count == self@.len(),
    {
        self.lines.len()
    }

    /// Adds a line.
    pub fn note(&mut self, line: &str)
        ensures
            final(self)@ == old(self)@.push(line@),
    {
        self.lines.push(String::from_str(line));
        assert(self@ =~= old(self)@.push(line@));
    }

    /// Adds a line that holds a label and a text.
    pub fn note_text(&mut self, label: &str, value: &str)
        ensures
            final(self)@ == old(self)@.push(labelled(label@, value@)),
    {
        proof {
            reveal_strlit(": ");
        }
        let mut line = String::from_str(label);
        line.append(": ");
        line.append(value);
        assert(line@ =~= labelled(label@, value@));
        self.lines.push(line);
        assert(self@ =~= old(self)@.push(labelled(label@, value@)));
    }

    /// Adds a line that holds a label and a number.
    pub fn note_number(&mut self, label: &str, value: u64)
        ensures
            final(self)@ == old(self)@.push(labelled(label@, decimal(value as nat))),
    {
        let text = decimal_text(value);
        self.note_text(label, text.as_str());
    }

    /// Adds a line that holds a label and a list of bytes.
    pub fn note_bytes(&mut self, label: &str, bytes: &[u8])
        ensures
            final(self)@ == old(self)@.push(labelled(label@, bytes_text(bytes@))),
    {
        let text = bytes_to_text(bytes);
        self.note_text(label, text.as_str());
    }

    /// Adds a line that holds a label and a status.
    pub fn note_status(&mut self, label: &str, status: Status)
        ensures
            final(self)@ == old(self)@.push(labelled(label@, status_text(status))),
    {
        let text = status_to_text(status);
        self.note_text(label, text.as_str());
    }

    /// Adds the line that says what a session failed with.
    pub fn note_failure(&mut self, error: BridgeError)
        ensures
            final(self)@ == old(self)@.push(failure_line(error)),
    {
        self.note_text("session failed", error_to_text(error));
    }

    /// Adds the line that says whether the host reference became a handle.
    pub fn note_acquisition(&mut self, acquired: bool)
        ensures
            final(self)@ == old(self)@.push(acquisition_line(acquired)),
    {
        if acquired {
            self.note("got SpIBinder");
        } else {
            self.note("failed to get SpIBinder");
        }
    }

    /// Adds the line that says where the peer of the proxy runs.
    pub fn note_locality(&mut self, locality: Locality)
        ensures
            final(self)@ == old(self)@.push(locality_line(locality)),
    {
        match locality {
            Locality::Remote => self.note("remote service"),
            Locality::Local => self.note("local service"),
        }
    }

    /// The report as one text: its lines, separated by line feeds.
    pub fn render(&self) -> (text: String)
        ensures
            text@ == joined(self@, seq!['\n']),
    {
        proof {
            reveal_strlit("\n");
        }
        let ghost separator = seq!['\n'];
        let mut text = String::new();
        let mut i: usize = 0;
        while i < self.lines.len()
            invariant
                i <= self.lines@.len(),
                separator == seq!['\n'],
                "\n"@ == separator,
                text@ == joined(self@.take(i as int), separator),
            decreases self.lines@.len() - i,
        {
            if i > 0 {
                text.append("\n");
            }
            text.append(self.lines[i].as_str());
            proof {
                let done = self@.take(i as int + 1);
                assert(done.drop_last() =~= self@.take(i as int));
                assert(done.last() == self.lines@[i as int]@);
                assert(text@ =~= joined(done, separator));
            }
            i = i + 1;
        }
        proof {
            assert(self@.take(self.lines@.len() as int) =~= self@);
        }
        text
    }
}

} // verus!
