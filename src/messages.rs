use vstd::prelude::*;

use crate::clicommands::{name_text, Command};
use crate::errors::{AuthFailure, CliError, Usage};
use crate::mode::{Mode, ModeSet};
use crate::network_config::{interface_names, joined};
use crate::outcome::{Credential, Notice};
use crate::text::{decimal, decimal_string, views};

verus! {

/// What each usage error says.
pub open spec fn usage_text(u: Usage) -> Seq<char> {
    match u {
        Usage::Enable => "Unknown enable subcommand. Use 'enable', 'enable password <password>' or 'enable secret <secret>'."@,
        Usage::EnablePassword => "You must provide the enable password."@,
        Usage::EnableSecret => "You must provide the enable secret password."@,
        Usage::Configure => "Invalid arguments provided to 'configure terminal'. This command does not accept additional arguments."@,
        Usage::Interface => "Invalid number of arguments. Usage: interface <interface-name>"@,
        Usage::Connect => "Invalid arguments. Usage: connect <network|crypto>"@,
        Usage::Exit => "Command is either 'exit' or 'exit ssh'"@,
        Usage::Disable => "Invalid arguments provided to 'disable'. This command does not accept additional arguments."@,
        Usage::Debug => "Invalid arguments provided to 'debug all'. This command does not accept additional arguments."@,
        Usage::Undebug => "Invalid arguments provided to 'undebug all'. This command does not accept additional arguments."@,
        Usage::Hostname => "Please specify a new hostname. Usage: hostname <new_hostname>"@,
        Usage::ShowIpInterface => "Invalid interface subcommand. Use 'brief'"@,
        Usage::ShowIp => "Invalid IP subcommand. Use 'interface brief' or 'route'"@,
        Usage::ShowNtp => "Invalid NTP subcommand. Use 'associations' or no subcommand"@,
        Usage::Write => "Invalid arguments provided to 'write memory'. This command does not accept additional arguments."@,
        Usage::Copy => "The command should be 'copy running-config startup-config|<file-name>'."@,
        Usage::ClockSet => "Correct Usage of 'clock set' command is 'clock set <hh:mm:ss> <day> <month> <year>'."@,
        Usage::Ip => "Invalid command format. Use: 'ip address <IP address> <subnet_mask>' or 'ip route <ip_address> <netmask> <exit_interface> <next_hop>'"@,
        Usage::IpAddress => "Invalid command format. Use: 'ip address <IP address> <subnet_mask>'"@,
        Usage::IpRoute => "Usage: ip route <ip_address> <netmask> <exit_interface> <next_hop>"@,
        Usage::No => "Invalid arguments provided to 'no'."@,
        Usage::Clear => "Invalid command. Available commands: clear, clear ntp associations"@,
        Usage::Ntp => "Invalid NTP subcommand. Available subcommands: source, server, master, authenticate, authentication-key, trusted-key"@,
        Usage::NtpServer => "Invalid arguments. Usage: ntp server {ip-address}"@,
        Usage::NtpSource => "Invalid arguments. Usage: ntp source {interface-name}"@,
        Usage::NtpAuthenticate => "Invalid arguments. Use 'ntp authenticate'."@,
        Usage::NtpAuthenticationKey => "Invalid arguments. Use 'ntp authentication-key <key-number> md5 <key-value>'."@,
        Usage::NtpTrustedKey => "Invalid arguments. Use 'ntp trusted-key <key-number>'."@,
        Usage::Service => "Invalid arguments provided to 'service password-encryption'. This command does not accept additional arguments."@,
        Usage::Ping => "Invalid syntax. Usage: ping <ip>"@,
        Usage::Traceroute => "Invalid syntax. Usage: traceroute <ip/hostname>"@,
    }
}

fn usage_message(u: Usage) -> (r: &'static str)
    ensures
        r@ == usage_text(u),
{
    match u {
        Usage::Enable => "Unknown enable subcommand. Use 'enable', 'enable password <password>' or 'enable secret <secret>'.",
        Usage::EnablePassword => "You must provide the enable password.",
        Usage::EnableSecret => "You must provide the enable secret password.",
        Usage::Configure => "Invalid arguments provided to 'configure terminal'. This command does not accept additional arguments.",
        Usage::Interface => "Invalid number of arguments. Usage: interface <interface-name>",
        Usage::Connect => "Invalid arguments. Usage: connect <network|crypto>",
        Usage::Exit => "Command is either 'exit' or 'exit ssh'",
        Usage::Disable => "Invalid arguments provided to 'disable'. This command does not accept additional arguments.",
        Usage::Debug => "Invalid arguments provided to 'debug all'. This command does not accept additional arguments.",
        Usage::Undebug => "Invalid arguments provided to 'undebug all'. This command does not accept additional arguments.",
        Usage::Hostname => "Please specify a new hostname. Usage: hostname <new_hostname>",
        Usage::ShowIpInterface => "Invalid interface subcommand. Use 'brief'",
        Usage::ShowIp => "Invalid IP subcommand. Use 'interface brief' or 'route'",
        Usage::ShowNtp => "Invalid NTP subcommand. Use 'associations' or no subcommand",
        Usage::Write => "Invalid arguments provided to 'write memory'. This command does not accept additional arguments.",
        Usage::Copy => "The command should be 'copy running-config startup-config|<file-name>'.",
        Usage::ClockSet => "Correct Usage of 'clock set' command is 'clock set <hh:mm:ss> <day> <month> <year>'.",
        Usage::Ip => "Invalid command format. Use: 'ip address <IP address> <subnet_mask>' or 'ip route <ip_address> <netmask> <exit_interface> <next_hop>'",
        Usage::IpAddress => "Invalid command format. Use: 'ip address <IP address> <subnet_mask>'",
        Usage::IpRoute => "Usage: ip route <ip_address> <netmask> <exit_interface> <next_hop>",
        Usage::No => "Invalid arguments provided to 'no'.",
        Usage::Clear => "Invalid command. Available commands: clear, clear ntp associations",
        Usage::Ntp => "Invalid NTP subcommand. Available subcommands: source, server, master, authenticate, authentication-key, trusted-key",
        Usage::NtpServer => "Invalid arguments. Usage: ntp server {ip-address}",
        Usage::NtpSource => "Invalid arguments. Usage: ntp source {interface-name}",
        Usage::NtpAuthenticate => "Invalid arguments. Use 'ntp authenticate'.",
        Usage::NtpAuthenticationKey => "Invalid arguments. Use 'ntp authentication-key <key-number> md5 <key-value>'.",
        Usage::NtpTrustedKey => "Invalid arguments. Use 'ntp trusted-key <key-number>'.",
        Usage::Service => "Invalid arguments provided to 'service password-encryption'. This command does not accept additional arguments.",
        Usage::Ping => "Invalid syntax. Usage: ping <ip>",
        Usage::Traceroute => "Invalid syntax. Usage: traceroute <ip/hostname>",
    }
}

/// The lines that report each notice.
pub open spec fn notice_lines(n: Notice) -> Seq<Seq<char>> {
    match n {
        Notice::EnteredPrivileged => seq!["Entering privileged EXEC mode..."@],
        Notice::EnteredConfig => seq!["Enter configuration commands, one per line.  End with CNTL/Z"@],
        Notice::EnteredInterface(x) => seq!["Entering Interface configuration mode for: "@ + x@],
        Notice::ExitedInterface => seq!["Exiting Interface Configuration Mode..."@],
        Notice::ExitedConfig => seq!["Exiting Global Configuration Mode..."@],
        Notice::ExitedPrivileged => seq!["Exiting Privileged EXEC Mode..."@],
        Notice::HostnameChanged(x) => seq!["Hostname changed to '"@ + x@ + "'"@],
        Notice::CredentialSet(c) => seq![(if c == Credential::Password { "Enable password set."@ } else { "Enable secret password set."@ })],
        Notice::DebuggingOn => seq!["All possible debugging has been turned on"@],
        Notice::DebuggingOff => seq!["All possible debugging has been turned off"@],
        Notice::DebugDeclined => seq!["Returned"@],
        Notice::ReloadAborted => seq!["Reload aborted."@],
        Notice::NtpServerAdded(x) => seq!["NTP server "@ + x@ + " configured."@],
        Notice::NtpServerRemoved(x) => seq!["NTP server "@ + x@ + " removed."@],
        Notice::NtpSourceSet(x) => seq!["NTP source interface set to "@ + x@],
        Notice::NtpMaster => seq!["Device configured as NTP master."@],
        Notice::NtpAuthentication(b) => seq!["NTP authentication "@ + (if b { "enabled"@ } else { "disabled"@ })],
        Notice::NtpKeyAdded(k, x) => seq!["NTP authentication key "@ + decimal(k as nat) + " configured with MD5 key: "@ + x@],
        Notice::NtpTrustedKey(k) => seq!["NTP trusted key "@ + decimal(k as nat) + " configured."@],
        Notice::NtpAssociationsCleared => seq!["NTP associations cleared and reinitialized."@],
        Notice::PasswordEncryption => seq!["Password encryption enabled."@],
        Notice::ClockUnavailable => seq!["Clock functionality is unavailable."@],
        Notice::Version => seq!["PNF_MPC_CLI_Version --> '1.0.0'"@],
        Notice::InvalidShow(x) => seq!["Invalid show command: "@ + x@],
        Notice::MissingShowParameter => seq!["Missing parameter. Usage: show <command>"@],
        Notice::InvalidDo(x) => seq!["Invalid do command: "@ + x@],
        Notice::MissingDoParameter => seq!["Missing parameter. Usage: do <command>"@],
        Notice::SshVersion => seq!["OpenSSH_8.9p1 Ubuntu-3ubuntu0.1, OpenSSL 3.0.2 15 Mar 2022"@],
        Notice::SshHelp => seq!["SSH Command Usage:"@, "  ssh -v                     Display SSH version"@, "  ssh -l username@ip-address Login to remote server"@, ""@, "Examples:"@, "  ssh -l admin@192.168.1.1"@],
        Notice::SshLoginUsage => seq!["Usage: ssh -l <username>@<ip-address>"@],
        Notice::SshLoginFormat => seq!["Invalid format. Use: ssh -l username@ip-address"@, "Example: ssh -l admin@192.168.1.1"@],
        Notice::InvalidSshOption(x) => seq!["Invalid SSH option: "@ + x@, "Use 'ssh -h' for help"@],
        Notice::SshMissing => seq!["Missing parameters. Use 'ssh -h' for help"@],
    }
}

impl Notice {
    /// The lines that report this notice.
    pub fn lines(&self) -> (r: Vec<String>)
        ensures
            views(r@) == notice_lines(*self),
    {
        match self {
            Notice::EnteredPrivileged => {
                let mut out: Vec<String> = Vec::new();
                out.push("Entering privileged EXEC mode...".to_owned());
                proof {
                    assert(views(out@) =~= notice_lines(*self));
                }
                out
            },
            Notice::EnteredConfig => {
                let mut out: Vec<String> = Vec::new();
                out.push("Enter configuration commands, one per line.  End with CNTL/Z".to_owned());
                proof {
                    assert(views(out@) =~= notice_lines(*self));
                }
                out
            },
            Notice::EnteredInterface(x) => {
                let mut out: Vec<String> = Vec::new();
                out.push("Entering Interface configuration mode for: ".to_owned().concat(x.as_str()));
                proof {
                    assert(views(out@) =~= notice_lines(*self));
                }
                out
            },
            Notice::ExitedInterface => {
                let mut out: Vec<String> = Vec::new();
                out.push("Exiting Interface Configuration Mode...".to_owned());
                proof {
                    assert(views(out@) =~= notice_lines(*self));
                }
                out
            },
            Notice::ExitedConfig => {
                let mut out: Vec<String> = Vec::new();
                out.push("Exiting Global Configuration Mode...".to_owned());
                proof {
                    assert(views(out@) =~= notice_lines(*self));
                }
                out
            },
            Notice::ExitedPrivileged => {
                let mut out: Vec<String> = Vec::new();
                out.push("Exiting Privileged EXEC Mode...".to_owned());
                proof {
                    assert(views(out@) =~= notice_lines(*self));
                }
                out
            },
            Notice::HostnameChanged(x) => {
                let mut out: Vec<String> = Vec::new();
                out.push("Hostname changed to '".to_owned().concat(x.as_str()).concat("'"));
                proof {
                    assert(views(out@) =~= notice_lines(*self));
                }
                out
            },
            Notice::CredentialSet(c) => {
                let mut out: Vec<String> = Vec::new();
                out.push((if *c == Credential::Password { "Enable password set." } else { "Enable secret password set." }).to_owned());
                proof {
                    assert(views(out@) =~= notice_lines(*self));
                }
                out
            },
            Notice::DebuggingOn => {
                let mut out: Vec<String> = Vec::new();
                out.push("All possible debugging has been turned on".to_owned());
                proof {
                    assert(views(out@) =~= notice_lines(*self));
                }
                out
            },
            Notice::DebuggingOff => {
                let mut out: Vec<String> = Vec::new();
                out.push("All possible debugging has been turned off".to_owned());
                proof {
                    assert(views(out@) =~= notice_lines(*self));
                }
                out
            },
            Notice::DebugDeclined => {
                let mut out: Vec<String> = Vec::new();
                out.push("Returned".to_owned());
                proof {
                    assert(views(out@) =~= notice_lines(*self));
                }
                out
            },
            Notice::ReloadAborted => {
                let mut out: Vec<String> = Vec::new();
                out.push("Reload aborted.".to_owned());
                proof {
                    assert(views(out@) =~= notice_lines(*self));
                }
                out
            },
            Notice::NtpServerAdded(x) => {
                let mut out: Vec<String> = Vec::new();
                out.push("NTP server ".to_owned().concat(x.as_str()).concat(" configured."));
                proof {
                    assert(views(out@) =~= notice_lines(*self));
                }
                out
            },
            Notice::NtpServerRemoved(x) => {
                let mut out: Vec<String> = Vec::new();
                out.push("NTP server ".to_owned().concat(x.as_str()).concat(" removed."));
                proof {
                    assert(views(out@) =~= notice_lines(*self));
                }
                out
            },
            Notice::NtpSourceSet(x) => {
                let mut out: Vec<String> = Vec::new();
                out.push("NTP source interface set to ".to_owned().concat(x.as_str()));
                proof {
                    assert(views(out@) =~= notice_lines(*self));
                }
                out
            },
            Notice::NtpMaster => {
                let mut out: Vec<String> = Vec::new();
                out.push("Device configured as NTP master.".to_owned());
                proof {
                    assert(views(out@) =~= notice_lines(*self));
                }
                out
            },
            Notice::NtpAuthentication(b) => {
                let mut out: Vec<String> = Vec::new();
                out.push("NTP authentication ".to_owned().concat((if *b { "enabled" } else { "disabled" })));
                proof {
                    assert(views(out@) =~= notice_lines(*self));
                }
                out
            },
            Notice::NtpKeyAdded(k, x) => {
                let mut out: Vec<String> = Vec::new();
                out.push("NTP authentication key ".to_owned().concat(decimal_string(*k as u64).as_str()).concat(" configured with MD5 key: ").concat(x.as_str()));
                proof {
                    assert(views(out@) =~= notice_lines(*self));
                }
                out
            },
            Notice::NtpTrustedKey(k) => {
                let mut out: Vec<String> = Vec::new();
                out.push("NTP trusted key ".to_owned().concat(decimal_string(*k as u64).as_str()).concat(" configured."));
                proof {
                    assert(views(out@) =~= notice_lines(*self));
                }
                out
            },
            Notice::NtpAssociationsCleared => {
                let mut out: Vec<String> = Vec::new();
                out.push("NTP associations cleared and reinitialized.".to_owned());
                proof {
                    assert(views(out@) =~= notice_lines(*self));
                }
                out
            },
            Notice::PasswordEncryption => {
                let mut out: Vec<String> = Vec::new();
                out.push("Password encryption enabled.".to_owned());
                proof {
                    assert(views(out@) =~= notice_lines(*self));
                }
                out
            },
            Notice::ClockUnavailable => {
                let mut out: Vec<String> = Vec::new();
                out.push("Clock functionality is unavailable.".to_owned());
                proof {
                    assert(views(out@) =~= notice_lines(*self));
                }
                out
            },
            Notice::Version => {
                let mut out: Vec<String> = Vec::new();
                out.push("PNF_MPC_CLI_Version --> '1.0.0'".to_owned());
                proof {
                    assert(views(out@) =~= notice_lines(*self));
                }
                out
            },
            Notice::InvalidShow(x) => {
                let mut out: Vec<String> = Vec::new();
                out.push("Invalid show command: ".to_owned().concat(x.as_str()));
                proof {
                    assert(views(out@) =~= notice_lines(*self));
                }
                out
            },
            Notice::MissingShowParameter => {
                let mut out: Vec<String> = Vec::new();
                out.push("Missing parameter. Usage: show <command>".to_owned());
                proof {
                    assert(views(out@) =~= notice_lines(*self));
                }
                out
            },
            Notice::InvalidDo(x) => {
                let mut out: Vec<String> = Vec::new();
                out.push("Invalid do command: ".to_owned().concat(x.as_str()));
                proof {
                    assert(views(out@) =~= notice_lines(*self));
                }
                out
            },
            Notice::MissingDoParameter => {
                let mut out: Vec<String> = Vec::new();
                out.push("Missing parameter. Usage: do <command>".to_owned());
                proof {
                    assert(views(out@) =~= notice_lines(*self));
                }
                out
            },
            Notice::SshVersion => {
                let mut out: Vec<String> = Vec::new();
                out.push("OpenSSH_8.9p1 Ubuntu-3ubuntu0.1, OpenSSL 3.0.2 15 Mar 2022".to_owned());
                proof {
                    assert(views(out@) =~= notice_lines(*self));
                }
                out
            },
            Notice::SshHelp => {
                let mut out: Vec<String> = Vec::new();
                out.push("SSH Command Usage:".to_owned());
                out.push("  ssh -v                     Display SSH version".to_owned());
                out.push("  ssh -l username@ip-address Login to remote server".to_owned());
                out.push("".to_owned());
                out.push("Examples:".to_owned());
                out.push("  ssh -l admin@192.168.1.1".to_owned());
                proof {
                    assert(views(out@) =~= notice_lines(*self));
                }
                out
            },
            Notice::SshLoginUsage => {
                let mut out: Vec<String> = Vec::new();
                out.push("Usage: ssh -l <username>@<ip-address>".to_owned());
                proof {
                    assert(views(out@) =~= notice_lines(*self));
                }
                out
            },
            Notice::SshLoginFormat => {
                let mut out: Vec<String> = Vec::new();
                out.push("Invalid format. Use: ssh -l username@ip-address".to_owned());
                out.push("Example: ssh -l admin@192.168.1.1".to_owned());
                proof {
                    assert(views(out@) =~= notice_lines(*self));
                }
                out
            },
            Notice::InvalidSshOption(x) => {
                let mut out: Vec<String> = Vec::new();
                out.push("Invalid SSH option: ".to_owned().concat(x.as_str()));
                out.push("Use 'ssh -h' for help".to_owned());
                proof {
                    assert(views(out@) =~= notice_lines(*self));
                }
                out
            },
            Notice::SshMissing => {
                let mut out: Vec<String> = Vec::new();
                out.push("Missing parameters. Use 'ssh -h' for help".to_owned());
                proof {
                    assert(views(out@) =~= notice_lines(*self));
                }
                out
            },
        }
    }
}

/// The name of each mode in messages.
pub open spec fn mode_name(m: Mode) -> Seq<char> {
    match m {
        Mode::UserMode => "User EXEC mode"@,
        Mode::PrivilegedMode => "Privileged EXEC mode"@,
        Mode::ConfigMode => "Global Configuration mode"@,
        Mode::InterfaceMode => "Interface Configuration mode"@,
    }
}

pub open spec fn if_in(b: bool, m: Mode) -> Seq<Seq<char>> {
    if b {
        seq![mode_name(m)]
    } else {
        Seq::empty()
    }
}

/// The names of the modes of a set, in the order of the modes, comma separated.
pub open spec fn modes_text(s: ModeSet) -> Seq<char> {
    joined(
        if_in(s.user, Mode::UserMode) + if_in(s.privileged, Mode::PrivilegedMode) + if_in(
            s.config,
            Mode::ConfigMode,
        ) + if_in(s.interface, Mode::InterfaceMode),
        ", "@,
    )
}

fn push_mode(v: &mut Vec<String>, b: bool, m: Mode)
    ensures
        views(final(v)@) == views(old(v)@) + if_in(b, m),
{
    let ghost before = views(v@);
    if b {
        let name = match m {
            Mode::UserMode => "User EXEC mode",
            Mode::PrivilegedMode => "Privileged EXEC mode",
            Mode::ConfigMode => "Global Configuration mode",
            Mode::InterfaceMode => "Interface Configuration mode",
        };
        v.push(name.to_owned());
    }
    proof {
        assert(views(v@) =~= before + if_in(b, m));
    }
}

/// Names the modes of a set.
pub fn modes_message(s: ModeSet) -> (r: String)
    ensures
        r@ == modes_text(s),
{
    let mut v: Vec<String> = Vec::new();
    push_mode(&mut v, s.user, Mode::UserMode);
    push_mode(&mut v, s.privileged, Mode::PrivilegedMode);
    push_mode(&mut v, s.config, Mode::ConfigMode);
    push_mode(&mut v, s.interface, Mode::InterfaceMode);
    proof {
        assert(views(v@) =~= if_in(s.user, Mode::UserMode) + if_in(
            s.privileged,
            Mode::PrivilegedMode,
        ) + if_in(s.config, Mode::ConfigMode) + if_in(s.interface, Mode::InterfaceMode));
    }
    interface_names(&v)
}

/// What each error says.
pub open spec fn error_text(e: CliError) -> Seq<char> {
    match e {
        CliError::ModeMismatch { command, permitted } => "The '"@ + name_text(command)
            + "' command is only available in "@ + modes_text(permitted) + "."@,
        CliError::NoModeToExit => "No mode to exit."@,
        CliError::Usage(u) => usage_text(u),
        CliError::UnknownCommand(x) => "Unknown command: "@ + x@,
        CliError::InvalidAddress(x) => "Invalid IP address format: "@ + x@,
        CliError::InvalidKeyNumber(x) => "Invalid key number "@ + x@ + ". Must be a positive integer."@,
        CliError::InvalidSubnetMask => "Invalid subnet mask"@,
        CliError::UnknownInterface { name, available } => "Invalid interface: "@ + name@
            + ". Available interfaces: "@ + joined(views(available@), ", "@),
        CliError::MissingInterface { available } => "Please specify a valid interface. Available interfaces: "@
            + joined(views(available@), ", "@),
        CliError::NoInterfaceSelected => "No interface selected. Use the 'interface' command first."@,
        CliError::NtpServerNotFound(x) => "NTP server "@ + x@ + " not found."@,
        CliError::ClockUnavailable => "Clock functionality is unavailable."@,
        CliError::Auth(AuthFailure::IncorrectPassword) => "Incorrect password."@,
        CliError::Auth(AuthFailure::IncorrectSecret) => "Incorrect secret."@,
        CliError::Auth(AuthFailure::IncorrectPasswordOrSecret) => "Incorrect password or secret."@,
        CliError::InvalidAnswer => "Invalid input. Please enter 'yes', 'y', or 'no'."@,
        CliError::Collaborator(x) => x@,
    }
}

impl CliError {
    /// What this error says.
    pub fn message(&self) -> (r: String)
        ensures
            r@ == error_text(*self),
    {
        match self {
            CliError::ModeMismatch { command, permitted } => {
                let name = Command::of(*command).name;
                "The '".to_owned().concat(name).concat("' command is only available in ").concat(
                    modes_message(*permitted).as_str(),
                ).concat(".")
            },
            CliError::NoModeToExit => "No mode to exit.".to_owned(),
            CliError::Usage(u) => usage_message(*u).to_owned(),
            CliError::UnknownCommand(x) => "Unknown command: ".to_owned().concat(x.as_str()),
            CliError::InvalidAddress(x) => "Invalid IP address format: ".to_owned().concat(x.as_str()),
            CliError::InvalidKeyNumber(x) => "Invalid key number ".to_owned().concat(x.as_str()).concat(
                ". Must be a positive integer.",
            ),
            CliError::InvalidSubnetMask => "Invalid subnet mask".to_owned(),
            CliError::UnknownInterface { name, available } => "Invalid interface: ".to_owned().concat(
                name.as_str(),
            ).concat(". Available interfaces: ").concat(interface_names(available).as_str()),
            CliError::MissingInterface { available } =>
                "Please specify a valid interface. Available interfaces: ".to_owned().concat(
                interface_names(available).as_str(),
            ),
            CliError::NoInterfaceSelected => "No interface selected. Use the 'interface' command first.".to_owned(),
            CliError::NtpServerNotFound(x) => "NTP server ".to_owned().concat(x.as_str()).concat(
                " not found.",
            ),
            CliError::ClockUnavailable => "Clock functionality is unavailable.".to_owned(),
            CliError::Auth(AuthFailure::IncorrectPassword) => "Incorrect password.".to_owned(),
            CliError::Auth(AuthFailure::IncorrectSecret) => "Incorrect secret.".to_owned(),
            CliError::Auth(AuthFailure::IncorrectPasswordOrSecret) => "Incorrect password or secret.".to_owned(),
            CliError::InvalidAnswer => "Invalid input. Please enter 'yes', 'y', or 'no'.".to_owned(),
            CliError::Collaborator(x) => x.clone(),
        }
    }
}

} // verus!
