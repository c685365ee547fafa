use vstd::prelude::*;

use crate::clicommands::CommandKind;
use crate::mode::ModeSet;

verus! {

/// The argument shape that a command expected and did not get.
#[derive(Clone, Copy, Debug, PartialEq, Eq, Structural)]
pub enum Usage {
    Enable,
    EnablePassword,
    EnableSecret,
    Configure,
    Interface,
    Connect,
    Exit,
    Disable,
    Debug,
    Undebug,
    Hostname,
    ShowIpInterface,
    ShowIp,
    ShowNtp,
    Write,
    Copy,
    ClockSet,
    Ip,
    IpAddress,
    IpRoute,
    No,
    Clear,
    Ntp,
    NtpServer,
    NtpSource,
    NtpAuthenticate,
    NtpAuthenticationKey,
    NtpTrustedKey,
    Service,
    Ping,
    Traceroute,
}

/// Which credentials failed to match during `enable`.
#[derive(Clone, Copy, Debug, PartialEq, Eq, Structural)]
pub enum AuthFailure {
    IncorrectPassword,
    IncorrectSecret,
    IncorrectPasswordOrSecret,
}

/// Every way a command can fail.
#[derive(Clone, Debug)]
pub enum CliError {
    /// The command is not valid in the current mode; `permitted` names the modes where it is.
    ModeMismatch { command: CommandKind, permitted: ModeSet },
    /// `exit` in user mode, the top of the mode hierarchy.
    NoModeToExit,
    /// Wrong number or form of arguments.
    Usage(Usage),
    /// The first token names no command.
    UnknownCommand(String),
    /// A malformed IPv4 address.
    InvalidAddress(String),
    /// A key number that is not a positive integer.
    InvalidKeyNumber(String),
    /// A subnet mask without four parts.
    InvalidSubnetMask,
    /// An interface name that the system does not have.
    UnknownInterface { name: String, available: Vec<String> },
    /// `interface` without a name.
    MissingInterface { available: Vec<String> },
    /// An interface command before any interface was selected.
    NoInterfaceSelected,
    /// `no ntp server` for an address that is not configured.
    NtpServerNotFound(String),
    /// The clock collaborator is not present.
    ClockUnavailable,
    /// The supplied credentials did not match.
    Auth(AuthFailure),
    /// An answer to a yes/no question that is neither.
    InvalidAnswer,
    /// An outside program failed or could not start.
    Collaborator(String),
}

} // verus!
