use vstd::prelude::*;
use tokio::signal::unix::SignalKind as OsSignalKind;

verus! {

/// The operating-system signals that a script may subscribe to.
#[allow(clippy::upper_case_acronyms)]
#[derive(Debug, Clone, Copy, PartialEq, Eq, Structural)]
pub enum SignalKind {
    SIGALRM,
    SIGCHLD,
    SIGHUP,
    SIGINT,
    SIGIO,
    SIGPIPE,
    SIGQUIT,
    SIGTERM,
    SIGUSR1,
    SIGUSR2,
    SIGWINCH,
}

/// What a signal does when no script handler was registered for it.
#[derive(Debug, Clone, Copy, PartialEq, Eq, Structural)]
pub enum DefaultHandler {
    /// Record the signal's number, truncated to 8 bits, as the pending exit code.
    ExitWithSignalCode,
    /// Ignore the delivery.
    DoNothing,
}

/// What one delivery of a signal does when no script handler was registered for it.
#[derive(Debug, Clone, Copy, PartialEq, Eq, Structural)]
pub enum DefaultAction {
    /// Set the process's pending exit code; the host exits with it at shutdown.
    SetExitCode(u8),
    /// Nothing happens.
    Nothing,
}

/// A signal name that names none of the supported signals.
#[derive(Debug, Clone, PartialEq, Eq)]
pub struct ParseError {
    pub name: String,
}

/// The signal that a name denotes, if any.
pub open spec fn kind_of_name(s: Seq<char>) -> Option<SignalKind> {
    if s == "SIGALRM"@ {
        Some(SignalKind::SIGALRM)
    } else if s == "SIGCHLD"@ {
        Some(SignalKind::SIGCHLD)
    } else if s == "SIGHUP"@ {
        Some(SignalKind::SIGHUP)
    } else if s == "SIGINT"@ {
        Some(SignalKind::SIGINT)
    } else if s == "SIGIO"@ {
        Some(SignalKind::SIGIO)
    } else if s == "SIGPIPE"@ {
        Some(SignalKind::SIGPIPE)
    } else if s == "SIGQUIT"@ {
        Some(SignalKind::SIGQUIT)
    } else if s == "SIGTERM"@ {
        Some(SignalKind::SIGTERM)
    } else if s == "SIGUSR1"@ {
        Some(SignalKind::SIGUSR1)
    } else if s == "SIGUSR2"@ {
        Some(SignalKind::SIGUSR2)
    } else if s == "SIGWINCH"@ {
        Some(SignalKind::SIGWINCH)
    } else {
        None
    }
}

/// Whether a signal's default handler ends the process with the signal's code.
pub open spec fn terminates_by_default(k: SignalKind) -> bool {
    match k {
        SignalKind::SIGALRM | SignalKind::SIGHUP | SignalKind::SIGINT | SignalKind::SIGPIPE
        | SignalKind::SIGQUIT | SignalKind::SIGTERM => true,
        _ => false,
    }
}

#[verifier::external_type_specification]
#[verifier::external_body]
pub struct ExOsSignalKind(OsSignalKind);

/// Relies on tokio's `SignalKind::alarm`: the descriptor of `SIGALRM`.
pub assume_specification[ OsSignalKind::alarm ]() -> OsSignalKind;

/// Relies on tokio's `SignalKind::child`: the descriptor of `SIGCHLD`.
pub assume_specification[ OsSignalKind::child ]() -> OsSignalKind;

/// Relies on tokio's `SignalKind::hangup`: the descriptor of `SIGHUP`.
pub assume_specification[ OsSignalKind::hangup ]() -> OsSignalKind;

/// Relies on tokio's `SignalKind::interrupt`: the descriptor of `SIGINT`.
pub assume_specification[ OsSignalKind::interrupt ]() -> OsSignalKind;

/// Relies on tokio's `SignalKind::io`: the descriptor of `SIGIO`.
pub assume_specification[ OsSignalKind::io ]() -> OsSignalKind;

/// Relies on tokio's `SignalKind::pipe`: the descriptor of `SIGPIPE`.
pub assume_specification[ OsSignalKind::pipe ]() -> OsSignalKind;

/// Relies on tokio's `SignalKind::quit`: the descriptor of `SIGQUIT`.
pub assume_specification[ OsSignalKind::quit ]() -> OsSignalKind;

/// Relies on tokio's `SignalKind::terminate`: the descriptor of `SIGTERM`.
pub assume_specification[ OsSignalKind::terminate ]() -> OsSignalKind;

/// Relies on tokio's `SignalKind::user_defined1`: the descriptor of `SIGUSR1`.
pub assume_specification[ OsSignalKind::user_defined1 ]() -> OsSignalKind;

/// Relies on tokio's `SignalKind::user_defined2`: the descriptor of `SIGUSR2`.
pub assume_specification[ OsSignalKind::user_defined2 ]() -> OsSignalKind;

/// Relies on tokio's `SignalKind::window_change`: the descriptor of `SIGWINCH`.
pub assume_specification[ OsSignalKind::window_change ]() -> OsSignalKind;

/// Relies on tokio's `SignalKind::as_raw_value`: the platform's number of the signal.
pub assume_specification[ OsSignalKind::as_raw_value ](
    k: &OsSignalKind,
) -> i32;

/// The exit code that a terminating signal leaves: its number truncated to 8 bits.
pub fn exit_code_of(raw: i32) -> (r: u8)
    ensures
        r as int == raw as int % 256,
{
    let m: i32 = raw % 256;
    let e: i32 = if m < 0 { m + 256 } else { m };
    e as u8
}

fn same_text(a: &str, b: &str) -> (r: bool)
    ensures
        r == (a@ == b@),
{
    let x = a.to_owned();
    let y = b.to_owned();
    x == y
}

impl SignalKind {
    /// Parses a signal's name, as in `"SIGTERM"`; any other text is refused.
    pub fn from_name(name: &str) -> (r: Result<SignalKind, ParseError>)
        ensures
            match r {
                Ok(k) => kind_of_name(name@) == Some(k),
                Err(e) => kind_of_name(name@) is None && e.name@ == name@,
            },
    {
        if same_text(name, "SIGALRM") {
            Ok(SignalKind::SIGALRM)
        } else if same_text(name, "SIGCHLD") {
            Ok(SignalKind::SIGCHLD)
        } else if same_text(name, "SIGHUP") {
            Ok(SignalKind::SIGHUP)
        } else if same_text(name, "SIGINT") {
            Ok(SignalKind::SIGINT)
        } else if same_text(name, "SIGIO") {
            Ok(SignalKind::SIGIO)
        } else if same_text(name, "SIGPIPE") {
            Ok(SignalKind::SIGPIPE)
        } else if same_text(name, "SIGQUIT") {
            Ok(SignalKind::SIGQUIT)
        } else if same_text(name, "SIGTERM") {
            Ok(SignalKind::SIGTERM)
        } else if same_text(name, "SIGUSR1") {
            Ok(SignalKind::SIGUSR1)
        } else if same_text(name, "SIGUSR2") {
            Ok(SignalKind::SIGUSR2)
        } else if same_text(name, "SIGWINCH") {
            Ok(SignalKind::SIGWINCH)
        } else {
            Err(ParseError { name: name.to_owned() })
        }
    }

    /// The behaviour that a delivery of this signal has when no script handler is registered.
    pub fn default_handler(self) -> (r: DefaultHandler)
        ensures
            terminates_by_default(self) <==> r == DefaultHandler::ExitWithSignalCode,
            !terminates_by_default(self) <==> r == DefaultHandler::DoNothing,
    {
        match self {
            SignalKind::SIGALRM | SignalKind::SIGHUP | SignalKind::SIGINT | SignalKind::SIGPIPE
            | SignalKind::SIGQUIT | SignalKind::SIGTERM => DefaultHandler::ExitWithSignalCode,
            _ => DefaultHandler::DoNothing,
        }
    }

    /// The descriptor of this signal in the asynchronous runtime's signal facility.
    pub fn os_kind(self) -> OsSignalKind {
        match self {
            SignalKind::SIGALRM => OsSignalKind::alarm(),
            SignalKind::SIGCHLD => OsSignalKind::child(),
            SignalKind::SIGHUP => OsSignalKind::hangup(),
            SignalKind::SIGINT => OsSignalKind::interrupt(),
            SignalKind::SIGIO => OsSignalKind::io(),
            SignalKind::SIGPIPE => OsSignalKind::pipe(),
            SignalKind::SIGQUIT => OsSignalKind::quit(),
            SignalKind::SIGTERM => OsSignalKind::terminate(),
            SignalKind::SIGUSR1 => OsSignalKind::user_defined1(),
            SignalKind::SIGUSR2 => OsSignalKind::user_defined2(),
            SignalKind::SIGWINCH => OsSignalKind::window_change(),
        }
    }

    /// The platform's number of this signal.
    pub fn raw_value(self) -> i32 {
        self.os_kind().as_raw_value()
    }

    /// What one delivery of this signal does by default, where `raw` is its number:
    /// the terminating signals set the pending exit code to the number truncated to
    /// 8 bits, the others do nothing.
    pub fn default_action_for(self, raw: i32) -> (r: DefaultAction)
        ensures
            terminates_by_default(self) ==> r == DefaultAction::SetExitCode(
                (raw as int % 256) as u8,
            ),
            !terminates_by_default(self) ==> r == DefaultAction::Nothing,
    {
        match self.default_handler() {
            DefaultHandler::ExitWithSignalCode => DefaultAction::SetExitCode(exit_code_of(raw)),
            DefaultHandler::DoNothing => DefaultAction::Nothing,
        }
    }

    /// What one delivery of this signal does by default, with its number as the
    /// platform gives it.
    pub fn default_action(self) -> (r: DefaultAction)
        ensures
            terminates_by_default(self) <==> r is SetExitCode,
            !terminates_by_default(self) <==> r is Nothing,
    {
        self.default_action_for(self.raw_value())
    }
}

} // verus!
