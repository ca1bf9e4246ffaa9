//! One attempt of the tunnel: its command line, the severity of each line it
//! prints, and what its end means.

use vstd::prelude::*;
use vstd::string::*;
use crate::config::{decimal, push_decimal, PortForwardConfig};

verus! {

/// The program that carries the tunnel.
pub fn tunnel_program() -> (r: &'static str)
    ensures
        r@ == "kubectl"@,
{
    "kubectl"
}

/// The arguments of the tunnel for `c`:
/// `port-forward -n <namespace> svc/<service> <local_port>:<remote_port>`.
pub open spec fn tunnel_args_spec(c: PortForwardConfig) -> Seq<Seq<char>> {
    seq![
        "port-forward"@,
        "-n"@,
        c.namespace@,
        "svc/"@ + c.service@,
        decimal(c.local_port as nat) + ":"@ + decimal(c.remote_port as nat),
    ]
}

/// The arguments with which the tunnel is started for `config`.
pub fn tunnel_args(config: &PortForwardConfig) -> (r: Vec<String>)
    ensures
        r@.len() == 5,
        forall|i: int| 0 <= i < 5 ==> #[trigger] r@[i]@ == tunnel_args_spec(*config)[i],
{
    let mut target = String::from_str("svc/");
    target.append(config.service.as_str());
    let mut ports = String::new();
    push_decimal(&mut ports, config.local_port);
    ports.append(":");
    push_decimal(&mut ports, config.remote_port);
    proof {
        assert(ports@ =~= decimal(config.local_port as nat) + ":"@ + decimal(config.remote_port as nat));
    }
    let r = vec![
        String::from_str("port-forward"),
        String::from_str("-n"),
        config.namespace.clone(),
        target,
        ports,
    ];
    r
}

/// The output channel of the tunnel that a line came from.
#[derive(Debug, Clone, Copy, PartialEq, Eq, Structural)]
pub enum Channel {
    Stdout,
    Stderr,
}

/// The severity at which an event is logged.
#[derive(Debug, Clone, Copy, PartialEq, Eq, Structural)]
pub enum Severity {
    Info,
    Warning,
    Error,
}

/// `c` is `lower` or `upper`.
pub open spec fn either(c: char, lower: char, upper: char) -> bool {
    c == lower || c == upper
}

/// The five characters of `s` from `i` on spell "error" in some mix of cases.
pub open spec fn error_at(s: Seq<char>, i: int) -> bool {
    &&& 0 <= i
    &&& i + 5 <= s.len()
    &&& either(s[i], 'e', 'E')
    &&& either(s[i + 1], 'r', 'R')
    &&& either(s[i + 2], 'r', 'R')
    &&& either(s[i + 3], 'o', 'O')
    &&& either(s[i + 4], 'r', 'R')
}

/// `s` holds "error" in some mix of cases.
pub open spec fn mentions_error(s: Seq<char>) -> bool {
    exists|i: int| error_at(s, i)
}

/// The severity of a line of output: a line on standard error that mentions
/// "error" is an error; every other line is information.
pub open spec fn line_severity_spec(channel: Channel, s: Seq<char>) -> Severity {
    if channel == Channel::Stderr && mentions_error(s) {
        Severity::Error
    } else {
        Severity::Info
    }
}

/// Whether `line` holds "error" in some mix of cases.
pub fn contains_error(line: &str) -> (r: bool)
    ensures
        r == mentions_error(line@),
{
    let n = line.unicode_len();
    if n < 5 {
        return false;
    }
    let mut i: usize = 0;
    while i <= n - 5
        invariant
            n == line@.len(),
            5 <= n,
            i <= n - 4,
            forall|j: int| 0 <= j < i ==> !error_at(line@, j),
        decreases n - i,
    {
        if (line.get_char(i) == 'e' || line.get_char(i) == 'E')
            && (line.get_char(i + 1) == 'r' || line.get_char(i + 1) == 'R')
            && (line.get_char(i + 2) == 'r' || line.get_char(i + 2) == 'R')
            && (line.get_char(i + 3) == 'o' || line.get_char(i + 3) == 'O')
            && (line.get_char(i + 4) == 'r' || line.get_char(i + 4) == 'R')
        {
            assert(error_at(line@, i as int));
            return true;
        }
        i = i + 1;
    }
    false
}

/// The severity at which a line of the tunnel's output is logged.
pub fn line_severity(channel: Channel, line: &str) -> (r: Severity)
    ensures
        r == line_severity_spec(channel, line@),
{
    match channel {
        Channel::Stdout => Severity::Info,
        Channel::Stderr => {
            if contains_error(line) {
                Severity::Error
            } else {
                Severity::Info
            }
        },
    }
}

/// Why an attempt of the tunnel failed.
#[derive(Debug, Clone)]
pub enum RunFailure {
    /// The program could not be started; the reason the system gave.
    SpawnFailed { reason: String },
    /// The program ended with a failing status: its exit code, where it left
    /// one (a process ended by a signal leaves none).
    AbnormalExit { code: Option<i32> },
    /// The program was started but waiting for its end failed.
    WaitFailed { reason: String },
}

/// What an attempt does once the start of the program was tried.
#[derive(Debug, Clone)]
pub enum SpawnStep {
    /// Read both output channels line by line and wait for the program's end.
    ReadAndWait,
    /// End the attempt at once with this failure; there is nothing to read.
    Fail(RunFailure),
}

/// The step after trying to start the program, where `spawn_error` is the
/// reason it could not be started, if it could not.
pub fn after_spawn(spawn_error: Option<String>) -> (r: SpawnStep)
    ensures
        spawn_error is None <==> r is ReadAndWait,
        spawn_error matches Some(e) ==> r == SpawnStep::Fail(RunFailure::SpawnFailed { reason: e }),
{
    match spawn_error {
        Some(e) => SpawnStep::Fail(RunFailure::SpawnFailed { reason: e }),
        None => SpawnStep::ReadAndWait,
    }
}

/// The result of an attempt whose program ended: success where its status
/// was a success, else the failure that carries the exit code.
pub fn exit_outcome(success: bool, code: Option<i32>) -> (r: Result<(), RunFailure>)
    ensures
        success ==> r == Ok::<(), RunFailure>(()),
        !success ==> r == Err::<(), RunFailure>(RunFailure::AbnormalExit { code }),
{
    if success {
        Ok(())
    } else {
        Err(RunFailure::AbnormalExit { code })
    }
}

/// The severity at which the end of an attempt is logged: a clean end is a
/// warning, since the tunnel should run for good, and a failure is an error.
pub fn exit_severity(outcome: &Result<(), RunFailure>) -> (r: Severity)
    ensures
        outcome is Ok ==> r == Severity::Warning,
        outcome is Err ==> r == Severity::Error,
{
    match outcome {
        Ok(()) => Severity::Warning,
        Err(_) => Severity::Error,
    }
}

} // verus!
