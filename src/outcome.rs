use vstd::prelude::*;

use crate::text::views;

verus! {

/// Which stored credential a value belongs to.
#[derive(Clone, Copy, Debug, PartialEq, Eq, Structural)]
pub enum Credential {
    Password,
    Secret,
}

/// The credentials that `enable` must read before it can decide.
#[derive(Clone, Copy, Debug, PartialEq, Eq, Structural)]
pub enum AuthRequirement {
    Password,
    Secret,
    Both,
}

/// A yes/no question that a command asks before it acts.
#[derive(Clone, Copy, Debug, PartialEq, Eq, Structural)]
pub enum Confirmation {
    Reload,
    PowerOff,
    DebugAll,
}

/// One run of an outside program: its name and its arguments.
#[derive(Clone, Debug)]
pub struct ProcessCall {
    pub program: String,
    pub args: Vec<String>,
}

impl ProcessCall {
    pub open spec fn is(self, program: Seq<char>, args: Seq<Seq<char>>) -> bool {
        self.program@ == program && views(self.args@) == args
    }
}

/// A change to the session that follows from a run of outside programs that succeeded.
#[derive(Clone, Debug)]
pub enum StateUpdate {
    /// The interface now has this address (bare, without a prefix length).
    SetAddress { interface: String, address: String },
    /// The interface's address was removed.
    RemoveAddress { interface: String },
    /// The interface was brought up or down.
    SetUp { interface: String, up: bool },
}

/// Programs to run in order, stopping at the first that fails, and the change to the
/// session that holds once all of them succeeded. `before` is printed before the first
/// program runs, `after` once all of them succeeded.
#[derive(Clone, Debug)]
pub struct RunPlan {
    pub calls: Vec<ProcessCall>,
    pub update: Option<StateUpdate>,
    pub before: Vec<String>,
    pub after: Vec<String>,
}

impl RunPlan {
    /// Whether the plan prints exactly `before` and `after` around its programs.
    pub open spec fn notes(self, before: Seq<Seq<char>>, after: Seq<Seq<char>>) -> bool {
        views(self.before@) == before && views(self.after@) == after
    }
}

/// What a successful command reports.
#[derive(Clone, Debug)]
pub enum Notice {
    EnteredPrivileged,
    EnteredConfig,
    EnteredInterface(String),
    ExitedInterface,
    ExitedConfig,
    ExitedPrivileged,
    HostnameChanged(String),
    CredentialSet(Credential),
    DebuggingOn,
    DebuggingOff,
    DebugDeclined,
    ReloadAborted,
    NtpServerAdded(String),
    NtpServerRemoved(String),
    NtpSourceSet(String),
    NtpMaster,
    NtpAuthentication(bool),
    NtpKeyAdded(u32, String),
    NtpTrustedKey(u32),
    NtpAssociationsCleared,
    PasswordEncryption,
    ClockUnavailable,
    Version,
    InvalidShow(String),
    MissingShowParameter,
    InvalidDo(String),
    MissingDoParameter,
    SshVersion,
    SshHelp,
    SshLoginUsage,
    SshLoginFormat,
    InvalidSshOption(String),
    SshMissing,
}

/// The result of a command that did not fail: what the shell reports, or the outside work
/// that the caller performs next.
#[derive(Clone, Debug)]
pub enum Outcome {
    /// An empty line: nothing to do.
    Nothing,
    /// The command is done; report this.
    Notice(Notice),
    /// Print these lines.
    Print(Vec<String>),
    /// Read the credentials, hash them, and hand them to `CliContext::complete_enable`.
    AskCredentials(AuthRequirement),
    /// Hash this clear text and hand both to `CliContext::store_credential`.
    StoreCredential(Credential, String),
    /// Run these programs.
    Run(RunPlan),
    /// Ask the question and hand the answer to `confirm_reply`.
    Confirm(Confirmation),
    /// Write this rendered running configuration to the startup configuration.
    SaveStartup(String),
    /// Write this rendered running configuration to the file at `path`.
    CopyTo { path: String, text: String },
    /// Print the stored startup configuration.
    ShowStartup,
    /// Print the command history.
    ShowHistory,
    /// Print the clock.
    ShowClock,
    /// Print the time since boot.
    ShowUptime,
    /// Set the clock from these words (`<hh:mm:ss> <day> <month> <year>`).
    SetClock(Vec<String>),
    /// Clear the terminal.
    ClearScreen,
    /// Open an SSH session as `user` on `host`.
    Connect { user: String, host: String },
    /// End the SSH session this shell runs in.
    EndSshSession,
    /// Show the system's interfaces, or the one named.
    Ifconfig(Option<String>),
    /// Remove the history, then power the machine off.
    PowerOff,
}

} // verus!
