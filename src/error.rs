//! Errors of session operations. Each variant names the phase that failed
//! and, where an OS failure lies beneath it, keeps that failure as its cause.

use vstd::prelude::*;
use vstd::string::*;

verus! {

#[verifier::external_type_specification]
#[verifier::external_body]
pub struct ExIoError(std::io::Error);

/// Failure of one phase of a session's life.
#[derive(Debug)]
pub enum PtyError {
    /// Allocating the terminal pair, or taking its writer or reader.
    CreateError(std::io::Error),
    /// Starting the command on the terminal.
    SpawnError { command: String, cause: std::io::Error },
    /// Reading the child's output.
    ReadError(std::io::Error),
    /// Delivering bytes to the child's input.
    WriteError(std::io::Error),
    /// Flushing bytes that were already handed to the child's input.
    FlushError(std::io::Error),
    /// Changing the terminal's dimensions to `rows` by `cols`.
    ResizeError { rows: u16, cols: u16, cause: std::io::Error },
    /// Waiting for the child to end.
    WaitError(std::io::Error),
    /// Ending the child by force.
    KillError(std::io::Error),
    /// The child is no longer there.
    ProcessExited,
    /// Any other I/O failure.
    IoError(std::io::Error),
}

/// Decimal digit for `d < 10`.
pub open spec fn digit_char(d: nat) -> char {
    if d == 0 { '0' }
    else if d == 1 { '1' }
    else if d == 2 { '2' }
    else if d == 3 { '3' }
    else if d == 4 { '4' }
    else if d == 5 { '5' }
    else if d == 6 { '6' }
    else if d == 7 { '7' }
    else if d == 8 { '8' }
    else { '9' }
}

/// Decimal notation of `n`, without leading zeros.
pub open spec fn decimal(n: nat) -> Seq<char>
    decreases n,
{
    if n < 10 {
        seq![digit_char(n)]
    } else {
        decimal(n / 10) + seq![digit_char(n % 10)]
    }
}

/// `t` occurs somewhere in `s`.
pub open spec fn contains(s: Seq<char>, t: Seq<char>) -> bool {
    exists|i: int| 0 <= i && i + t.len() <= s.len() && #[trigger] s.subrange(i, i + t.len()) == t
}

/// The name of the operation that `e` reports on.
pub open spec fn operation(e: PtyError) -> Seq<char> {
    match e {
        PtyError::CreateError(_) => "create"@,
        PtyError::SpawnError { .. } => "spawn"@,
        PtyError::ReadError(_) => "read"@,
        PtyError::WriteError(_) => "write"@,
        PtyError::FlushError(_) => "flush"@,
        PtyError::ResizeError { .. } => "resize"@,
        PtyError::WaitError(_) => "wait"@,
        PtyError::KillError(_) => "kill"@,
        PtyError::ProcessExited => "exited"@,
        PtyError::IoError(_) => "IO"@,
    }
}

/// The text that opens the message of `e`, before the cause's own text.
pub open spec fn headline(e: PtyError) -> Seq<char> {
    match e {
        PtyError::CreateError(_) => "Failed to create PTY: "@,
        PtyError::SpawnError { command, .. } =>
            "Failed to spawn command `"@ + command@ + "`: "@,
        PtyError::ReadError(_) => "Failed to read from PTY: "@,
        PtyError::WriteError(_) => "Failed to write to PTY: "@,
        PtyError::FlushError(_) => "Failed to flush PTY input: "@,
        PtyError::ResizeError { rows, cols, .. } =>
            "Failed to resize PTY to "@ + decimal(rows as nat) + "x"@ + decimal(cols as nat)
                + ": "@,
        PtyError::WaitError(_) => "Failed to wait for child process: "@,
        PtyError::KillError(_) => "Failed to kill child process: "@,
        PtyError::ProcessExited => "PTY process has exited"@,
        PtyError::IoError(_) => "IO error: "@,
    }
}

/// The OS failure beneath `e`, if there is one.
pub open spec fn cause_of(e: PtyError) -> Option<std::io::Error> {
    match e {
        PtyError::CreateError(c) => Some(c),
        PtyError::SpawnError { cause, .. } => Some(cause),
        PtyError::ReadError(c) => Some(c),
        PtyError::WriteError(c) => Some(c),
        PtyError::FlushError(c) => Some(c),
        PtyError::ResizeError { cause, .. } => Some(cause),
        PtyError::WaitError(c) => Some(c),
        PtyError::KillError(c) => Some(c),
        PtyError::ProcessExited => None,
        PtyError::IoError(c) => Some(c),
    }
}

/// Every error's message names the operation that failed, a spawn error's
/// message names the command, a resize error's the requested dimensions, and
/// every error but `ProcessExited` keeps an underlying cause: a text `m` that
/// opens with the headline of `e`, as each message does, contains these.
pub proof fn lemma_message_names_operation(e: PtyError, m: Seq<char>)
    requires
        headline(e).len() <= m.len(),
        m.subrange(0, headline(e).len() as int) == headline(e),
    ensures
        contains(m, operation(e)),
        e matches PtyError::SpawnError { command, .. } ==> contains(m, command@),
        e matches PtyError::ResizeError { rows, cols, .. } ==> contains(m, decimal(rows as nat))
            && contains(m, decimal(cols as nat)),
        !(e is ProcessExited) ==> cause_of(e) is Some,
{
    let h = headline(e);
    let op = operation(e);
    let at: int = match e {
        PtyError::ProcessExited => 16,
        PtyError::IoError(_) => 0,
        _ => 10,
    };
    reveal_strlit("create");
    reveal_strlit("spawn");
    reveal_strlit("read");
    reveal_strlit("write");
    reveal_strlit("flush");
    reveal_strlit("resize");
    reveal_strlit("wait");
    reveal_strlit("kill");
    reveal_strlit("exited");
    reveal_strlit("IO");
    reveal_strlit("Failed to create PTY: ");
    reveal_strlit("Failed to spawn command `");
    reveal_strlit("Failed to read from PTY: ");
    reveal_strlit("Failed to write to PTY: ");
    reveal_strlit("Failed to flush PTY input: ");
    reveal_strlit("Failed to resize PTY to ");
    reveal_strlit("Failed to wait for child process: ");
    reveal_strlit("Failed to kill child process: ");
    reveal_strlit("PTY process has exited");
    reveal_strlit("IO error: ");
    match e {
        PtyError::SpawnError { command, .. } => {
            let a = "Failed to spawn command `"@;
            assert(h =~= a + (command@ + "`: "@));
            assert(h.subrange(at, at + op.len()) =~= a.subrange(at, at + op.len()));
            let p = a.len() as int;
            let l = command@.len() as int;
            assert(h.subrange(p, p + l) =~= command@);
            assert(m.subrange(p, p + l) =~= h.subrange(p, p + l));
        },
        PtyError::ResizeError { rows, cols, .. } => {
            let a = "Failed to resize PTY to "@;
            let dr = decimal(rows as nat);
            let dc = decimal(cols as nat);
            assert(h =~= a + (dr + "x"@ + dc + ": "@));
            assert(h.subrange(at, at + op.len()) =~= a.subrange(at, at + op.len()));
            let p = a.len() as int;
            reveal_strlit("x");
            reveal_strlit(": ");
            assert(h.subrange(p, p + dr.len()) =~= dr);
            assert(m.subrange(p, p + dr.len()) =~= h.subrange(p, p + dr.len()));
            let q = p + dr.len() + 1;
            assert(h.subrange(q, q + dc.len()) =~= dc);
            assert(m.subrange(q, q + dc.len()) =~= h.subrange(q, q + dc.len()));
        },
        _ => {},
    }
    assert(h.subrange(at, at + op.len()) =~= op);
    assert(m.subrange(at, at + op.len()) =~= h.subrange(at, at + op.len()));
}

/// Appends one decimal digit.
fn push_digit(s: &mut String, d: u16)
    requires
        d < 10,
    ensures
        final(s)@ == old(s)@ + seq![digit_char(d as nat)],
{
    let t: &str = if d == 0 {
        proof { reveal_strlit("0"); }
        "0"
    } else if d == 1 {
        proof { reveal_strlit("1"); }
        "1"
    } else if d == 2 {
        proof { reveal_strlit("2"); }
        "2"
    } else if d == 3 {
        proof { reveal_strlit("3"); }
        "3"
    } else if d == 4 {
        proof { reveal_strlit("4"); }
        "4"
    } else if d == 5 {
        proof { reveal_strlit("5"); }
        "5"
    } else if d == 6 {
        proof { reveal_strlit("6"); }
        "6"
    } else if d == 7 {
        proof { reveal_strlit("7"); }
        "7"
    } else if d == 8 {
        proof { reveal_strlit("8"); }
        "8"
    } else {
        proof { reveal_strlit("9"); }
        "9"
    };
    s.append(t);
}

/// Appends the decimal notation of `n`.
fn push_decimal(s: &mut String, n: u16)
    ensures
        final(s)@ == old(s)@ + decimal(n as nat),
    decreases n,
{
    if n < 10 {
        push_digit(s, n);
    } else {
        push_decimal(s, n / 10);
        push_digit(s, n % 10);
        assert(final(s)@ =~= old(s)@ + decimal(n as nat));
    }
}

impl PtyError {
    /// Failure to allocate the terminal or to take one of its ends.
    pub fn create(cause: std::io::Error) -> (r: PtyError)
        ensures
            r == PtyError::CreateError(cause),
            cause_of(r) == Some(cause),
            contains(headline(r), "create"@),
    {
        let r = PtyError::CreateError(cause);
        proof {
            assert(headline(r).subrange(0, headline(r).len() as int) =~= headline(r));
            lemma_message_names_operation(r, headline(r));
        }
        r
    }

    /// Failure to start `command`.
    pub fn spawn(command: &str, cause: std::io::Error) -> (r: PtyError)
        ensures
            r matches PtyError::SpawnError { command: c, cause: k } && c@ == command@ && k == cause,
            cause_of(r) == Some(cause),
            contains(headline(r), "spawn"@),
            contains(headline(r), command@),
    {
        let r = PtyError::SpawnError { command: String::from_str(command), cause };
        proof {
            assert(headline(r).subrange(0, headline(r).len() as int) =~= headline(r));
            lemma_message_names_operation(r, headline(r));
        }
        r
    }

    /// Failure to read the child's output.
    pub fn read(cause: std::io::Error) -> (r: PtyError)
        ensures
            r == PtyError::ReadError(cause),
            cause_of(r) == Some(cause),
            contains(headline(r), "read"@),
    {
        let r = PtyError::ReadError(cause);
        proof {
            assert(headline(r).subrange(0, headline(r).len() as int) =~= headline(r));
            lemma_message_names_operation(r, headline(r));
        }
        r
    }

    /// Failure to deliver bytes to the child.
    pub fn write(cause: std::io::Error) -> (r: PtyError)
        ensures
            r == PtyError::WriteError(cause),
            cause_of(r) == Some(cause),
            contains(headline(r), "write"@),
    {
        let r = PtyError::WriteError(cause);
        proof {
            assert(headline(r).subrange(0, headline(r).len() as int) =~= headline(r));
            lemma_message_names_operation(r, headline(r));
        }
        r
    }

    /// Failure to flush bytes already handed to the child.
    pub fn flush(cause: std::io::Error) -> (r: PtyError)
        ensures
            r == PtyError::FlushError(cause),
            cause_of(r) == Some(cause),
            contains(headline(r), "flush"@),
    {
        let r = PtyError::FlushError(cause);
        proof {
            assert(headline(r).subrange(0, headline(r).len() as int) =~= headline(r));
            lemma_message_names_operation(r, headline(r));
        }
        r
    }

    /// Failure to change the dimensions to `rows` by `cols`.
    pub fn resize(rows: u16, cols: u16, cause: std::io::Error) -> (r: PtyError)
        ensures
            r == (PtyError::ResizeError { rows, cols, cause }),
            cause_of(r) == Some(cause),
            contains(headline(r), "resize"@),
            contains(headline(r), decimal(rows as nat)),
            contains(headline(r), decimal(cols as nat)),
    {
        let r = PtyError::ResizeError { rows, cols, cause };
        proof {
            assert(headline(r).subrange(0, headline(r).len() as int) =~= headline(r));
            lemma_message_names_operation(r, headline(r));
        }
        r
    }

    /// Failure to wait for the child.
    pub fn wait(cause: std::io::Error) -> (r: PtyError)
        ensures
            r == PtyError::WaitError(cause),
            cause_of(r) == Some(cause),
            contains(headline(r), "wait"@),
    {
        let r = PtyError::WaitError(cause);
        proof {
            assert(headline(r).subrange(0, headline(r).len() as int) =~= headline(r));
            lemma_message_names_operation(r, headline(r));
        }
        r
    }

    /// Failure to end the child.
    pub fn kill(cause: std::io::Error) -> (r: PtyError)
        ensures
            r == PtyError::KillError(cause),
            cause_of(r) == Some(cause),
            contains(headline(r), "kill"@),
    {
        let r = PtyError::KillError(cause);
        proof {
            assert(headline(r).subrange(0, headline(r).len() as int) =~= headline(r));
            lemma_message_names_operation(r, headline(r));
        }
        r
    }

    /// The OS failure beneath this error, where there is one.
    pub fn source(&self) -> (r: Option<&std::io::Error>)
        ensures
            r matches Some(c) ==> cause_of(*self) == Some(*c),
            r is None <==> cause_of(*self) is None,
    {
        match self {
            PtyError::CreateError(c) => Some(c),
            PtyError::SpawnError { cause, .. } => Some(cause),
            PtyError::ReadError(c) => Some(c),
            PtyError::WriteError(c) => Some(c),
            PtyError::FlushError(c) => Some(c),
            PtyError::ResizeError { cause, .. } => Some(cause),
            PtyError::WaitError(c) => Some(c),
            PtyError::KillError(c) => Some(c),
            PtyError::ProcessExited => None,
            PtyError::IoError(c) => Some(c),
        }
    }

    /// The opening of the message: the failed operation and the identifiers
    /// that go with it (the command; the requested dimensions).
    pub fn headline(&self) -> (r: String)
        ensures
            r@ == headline(*self),
    {
        match self {
            PtyError::CreateError(_) => String::from_str("Failed to create PTY: "),
            PtyError::SpawnError { command, .. } => {
                let mut s = String::from_str("Failed to spawn command `");
                s.append(command.as_str());
                s.append("`: ");
                s
            },
            PtyError::ReadError(_) => String::from_str("Failed to read from PTY: "),
            PtyError::WriteError(_) => String::from_str("Failed to write to PTY: "),
            PtyError::FlushError(_) => String::from_str("Failed to flush PTY input: "),
            PtyError::ResizeError { rows, cols, .. } => {
                let mut s = String::from_str("Failed to resize PTY to ");
                push_decimal(&mut s, *rows);
                s.append("x");
                push_decimal(&mut s, *cols);
                s.append(": ");
                s
            },
            PtyError::WaitError(_) => String::from_str("Failed to wait for child process: "),
            PtyError::KillError(_) => String::from_str("Failed to kill child process: "),
            PtyError::ProcessExited => String::from_str("PTY process has exited"),
            PtyError::IoError(_) => String::from_str("IO error: "),
        }
    }

    /// The full message: the headline, then the text of the cause.
    pub fn message(&self) -> (r: String)
        ensures
            headline(*self).len() <= r@.len(),
            r@.subrange(0, headline(*self).len() as int) == headline(*self),
            cause_of(*self) is None ==> r@ == headline(*self),
            cause_of(*self) is Some ==> (exists|t: String|
                #[trigger] to_string_from_display_ensures::<std::io::Error>(
                    &cause_of(*self).unwrap(),
                    t,
                ) && r@ == headline(*self) + t@),
    {
        let mut s = self.headline();
        match self.source() {
            Some(c) => {
                let t = c.to_string();
                s.append(t.as_str());
                assert(s@.subrange(0, headline(*self).len() as int) =~= headline(*self));
                let ghost k: std::io::Error = *c;
                assert(cause_of(*self) == Some(k));
                assert(to_string_from_display_ensures::<std::io::Error>(&k, t) && s@ == headline(
                    *self,
                ) + t@);
                assert(cause_of(*self).unwrap() == k);
                assert(to_string_from_display_ensures::<std::io::Error>(&cause_of(*self).unwrap(), t));
            },
            None => {},
        }
        s
    }
}

impl From<std::io::Error> for PtyError {
    /// Any other I/O failure.
    fn from(e: std::io::Error) -> (r: PtyError) {
        PtyError::IoError(e)
    }
}

impl vstd::std_specs::convert::FromSpecImpl<std::io::Error> for PtyError {
    open spec fn obeys_from_spec() -> bool {
        true
    }

    open spec fn from_spec(e: std::io::Error) -> PtyError {
        PtyError::IoError(e)
    }
}

} // verus!
