use vstd::prelude::*;

use crate::text::str_eq;

verus! {

/// The commands of the shell, one variant per top-level token.
#[derive(Clone, Copy, Debug, PartialEq, Eq, Structural)]
pub enum CommandKind {
    Enable,
    Configure,
    Interface,
    Connect,
    Exit,
    Disable,
    Reload,
    Poweroff,
    Debug,
    Undebug,
    Hostname,
    Ifconfig,
    Show,
    Do,
    Write,
    Copy,
    Help,
    Clock,
    Ip,
    Shutdown,
    No,
    Clear,
    Ntp,
    Service,
    Ssh,
    Ping,
    Traceroute,
}

/// Every command, in the order the registry lists them.
pub open spec fn all_kinds() -> Seq<CommandKind> {
    seq![
        CommandKind::Enable,
        CommandKind::Configure,
        CommandKind::Interface,
        CommandKind::Connect,
        CommandKind::Exit,
        CommandKind::Disable,
        CommandKind::Reload,
        CommandKind::Poweroff,
        CommandKind::Debug,
        CommandKind::Undebug,
        CommandKind::Hostname,
        CommandKind::Ifconfig,
        CommandKind::Show,
        CommandKind::Do,
        CommandKind::Write,
        CommandKind::Copy,
        CommandKind::Help,
        CommandKind::Clock,
        CommandKind::Ip,
        CommandKind::Shutdown,
        CommandKind::No,
        CommandKind::Clear,
        CommandKind::Ntp,
        CommandKind::Service,
        CommandKind::Ssh,
        CommandKind::Ping,
        CommandKind::Traceroute,
    ]
}

/// The top-level token that selects a command.
pub open spec fn key_text(k: CommandKind) -> Seq<char> {
    match k {
        CommandKind::Enable => "enable"@,
        CommandKind::Configure => "configure"@,
        CommandKind::Interface => "interface"@,
        CommandKind::Connect => "connect"@,
        CommandKind::Exit => "exit"@,
        CommandKind::Disable => "disable"@,
        CommandKind::Reload => "reload"@,
        CommandKind::Poweroff => "poweroff"@,
        CommandKind::Debug => "debug"@,
        CommandKind::Undebug => "undebug"@,
        CommandKind::Hostname => "hostname"@,
        CommandKind::Ifconfig => "ifconfig"@,
        CommandKind::Show => "show"@,
        CommandKind::Do => "do"@,
        CommandKind::Write => "write"@,
        CommandKind::Copy => "copy"@,
        CommandKind::Help => "help"@,
        CommandKind::Clock => "clock"@,
        CommandKind::Ip => "ip"@,
        CommandKind::Shutdown => "shutdown"@,
        CommandKind::No => "no"@,
        CommandKind::Clear => "clear"@,
        CommandKind::Ntp => "ntp"@,
        CommandKind::Service => "service"@,
        CommandKind::Ssh => "ssh"@,
        CommandKind::Ping => "ping"@,
        CommandKind::Traceroute => "traceroute"@,
    }
}

/// The command that a first token selects: an exact match of the whole token.
pub open spec fn command_named(t: Seq<char>) -> Option<CommandKind> {
    if t == "enable"@ {
        Some(CommandKind::Enable)
    } else if t == "configure"@ {
        Some(CommandKind::Configure)
    } else if t == "interface"@ {
        Some(CommandKind::Interface)
    } else if t == "connect"@ {
        Some(CommandKind::Connect)
    } else if t == "exit"@ {
        Some(CommandKind::Exit)
    } else if t == "disable"@ {
        Some(CommandKind::Disable)
    } else if t == "reload"@ {
        Some(CommandKind::Reload)
    } else if t == "poweroff"@ {
        Some(CommandKind::Poweroff)
    } else if t == "debug"@ {
        Some(CommandKind::Debug)
    } else if t == "undebug"@ {
        Some(CommandKind::Undebug)
    } else if t == "hostname"@ {
        Some(CommandKind::Hostname)
    } else if t == "ifconfig"@ {
        Some(CommandKind::Ifconfig)
    } else if t == "show"@ {
        Some(CommandKind::Show)
    } else if t == "do"@ {
        Some(CommandKind::Do)
    } else if t == "write"@ {
        Some(CommandKind::Write)
    } else if t == "copy"@ {
        Some(CommandKind::Copy)
    } else if t == "help"@ {
        Some(CommandKind::Help)
    } else if t == "clock"@ {
        Some(CommandKind::Clock)
    } else if t == "ip"@ {
        Some(CommandKind::Ip)
    } else if t == "shutdown"@ {
        Some(CommandKind::Shutdown)
    } else if t == "no"@ {
        Some(CommandKind::No)
    } else if t == "clear"@ {
        Some(CommandKind::Clear)
    } else if t == "ntp"@ {
        Some(CommandKind::Ntp)
    } else if t == "service"@ {
        Some(CommandKind::Service)
    } else if t == "ssh"@ {
        Some(CommandKind::Ssh)
    } else if t == "ping"@ {
        Some(CommandKind::Ping)
    } else if t == "traceroute"@ {
        Some(CommandKind::Traceroute)
    } else {
        None
    }
}

/// The canonical invocation of each command.
pub open spec fn name_text(k: CommandKind) -> Seq<char> {
    match k {
        CommandKind::Enable => "enable"@,
        CommandKind::Configure => "configure terminal"@,
        CommandKind::Interface => "interface"@,
        CommandKind::Connect => "connect"@,
        CommandKind::Exit => "exit"@,
        CommandKind::Disable => "disable"@,
        CommandKind::Reload => "reload"@,
        CommandKind::Poweroff => "poweroff"@,
        CommandKind::Debug => "debug all"@,
        CommandKind::Undebug => "undebug all"@,
        CommandKind::Hostname => "hostname"@,
        CommandKind::Ifconfig => "ifconfig"@,
        CommandKind::Show => "show"@,
        CommandKind::Do => "do"@,
        CommandKind::Write => "write memory"@,
        CommandKind::Copy => "copy"@,
        CommandKind::Help => "help"@,
        CommandKind::Clock => "clock set"@,
        CommandKind::Ip => "ip"@,
        CommandKind::Shutdown => "shutdown"@,
        CommandKind::No => "no"@,
        CommandKind::Clear => "clear"@,
        CommandKind::Ntp => "ntp"@,
        CommandKind::Service => "service password-encryption"@,
        CommandKind::Ssh => "ssh"@,
        CommandKind::Ping => "ping"@,
        CommandKind::Traceroute => "traceroute"@,
    }
}

/// The one-line description of each command.
pub open spec fn description_text(k: CommandKind) -> Seq<char> {
    match k {
        CommandKind::Enable => "Enter privileged EXEC mode"@,
        CommandKind::Configure => "Enter global configuration mode"@,
        CommandKind::Interface => "Enter Interface configuration mode"@,
        CommandKind::Connect => "Connect to network processor or crypto module"@,
        CommandKind::Exit => "Exit the current mode and return to the previous mode."@,
        CommandKind::Disable => "Exit the Privileged EXEC mode and return to the USER EXEC mode."@,
        CommandKind::Reload => "Reload the system"@,
        CommandKind::Poweroff => "Shutdown the Management PC"@,
        CommandKind::Debug => "To turn on all the possible debug levels"@,
        CommandKind::Undebug => "Turning off all possible debugging processes"@,
        CommandKind::Hostname => "Set the device hostname"@,
        CommandKind::Ifconfig => "Configure a network interface"@,
        CommandKind::Show => "Display all the show commands when specific command is passed in the specific mode"@,
        CommandKind::Do => "Execute privileged EXEC commands from any configuration mode"@,
        CommandKind::Write => "Save the running configuration to the startup configuration"@,
        CommandKind::Copy => "Copy running configuration"@,
        CommandKind::Help => "Display available commands for current mode"@,
        CommandKind::Clock => "Change the clock date and time"@,
        CommandKind::Ip => "Define all the ip commands"@,
        CommandKind::Shutdown => "Disable the selected network interface."@,
        CommandKind::No => "Enable the selected network interface."@,
        CommandKind::Clear => "Clear processes"@,
        CommandKind::Ntp => "NTP configuration commands"@,
        CommandKind::Service => "Enable password encryption"@,
        CommandKind::Ssh => "Establish SSH connection to a remote host"@,
        CommandKind::Ping => "Ping a specific IP address to check reachability"@,
        CommandKind::Traceroute => "Trace the route to a specific IP address or hostname"@,
    }
}

/// The words suggested after the command's token.
pub open spec fn first_suggestions(k: CommandKind) -> Option<Seq<Seq<char>>> {
    match k {
        CommandKind::Enable => Some(seq!["password"@, "secret"@]),
        CommandKind::Configure => Some(seq!["terminal"@]),
        CommandKind::Interface => None,
        CommandKind::Connect => Some(seq!["network"@, "crypto"@]),
        CommandKind::Exit => None,
        CommandKind::Disable => None,
        CommandKind::Reload => None,
        CommandKind::Poweroff => None,
        CommandKind::Debug => Some(seq!["all"@]),
        CommandKind::Undebug => Some(seq!["all"@]),
        CommandKind::Hostname => None,
        CommandKind::Ifconfig => None,
        CommandKind::Show => Some(seq!["running-config"@, "startup-config"@, "version"@, "ntp"@, "processes"@, "clock"@, "uptime"@, "controllers"@, "history"@, "sessions"@, "interfaces"@, "ip"@, "login"@]),
        CommandKind::Do => Some(seq!["show"@]),
        CommandKind::Write => Some(seq!["memory"@]),
        CommandKind::Copy => Some(seq!["running-config"@]),
        CommandKind::Help => None,
        CommandKind::Clock => Some(seq!["set"@]),
        CommandKind::Ip => Some(seq!["address"@, "route"@]),
        CommandKind::Shutdown => None,
        CommandKind::No => Some(seq!["shutdown"@, "ntp"@, "ip"@]),
        CommandKind::Clear => Some(seq!["ntp associations"@]),
        CommandKind::Ntp => Some(seq!["source"@, "server"@, "master"@, "authenticate"@, "authentication-key"@, "trusted-key"@]),
        CommandKind::Service => Some(seq!["password-encryption"@]),
        CommandKind::Ssh => Some(seq!["-v"@, "-l"@, "-h"@, "--help"@]),
        CommandKind::Ping => None,
        CommandKind::Traceroute => None,
    }
}

/// The words suggested one level further in.
pub open spec fn second_suggestions(k: CommandKind) -> Option<Seq<Seq<char>>> {
    match k {
        CommandKind::Enable => None,
        CommandKind::Configure => Some(seq!["terminal"@]),
        CommandKind::Interface => None,
        CommandKind::Connect => Some(seq!["network"@, "crypto"@]),
        CommandKind::Exit => None,
        CommandKind::Disable => None,
        CommandKind::Reload => None,
        CommandKind::Poweroff => None,
        CommandKind::Debug => Some(seq!["all"@]),
        CommandKind::Undebug => Some(seq!["all"@]),
        CommandKind::Hostname => None,
        CommandKind::Ifconfig => None,
        CommandKind::Show => Some(seq!["running-config"@, "startup-config"@, "version"@, "ntp"@, "processes"@, "clock"@, "uptime"@, "controllers"@, "history"@, "sessions"@, "interfaces"@, "ip"@, "login"@]),
        CommandKind::Do => Some(seq!["show"@]),
        CommandKind::Write => Some(seq!["memory"@]),
        CommandKind::Copy => Some(seq!["running-config"@]),
        CommandKind::Help => None,
        CommandKind::Clock => Some(seq!["set"@]),
        CommandKind::Ip => Some(seq!["address"@, "route"@]),
        CommandKind::Shutdown => None,
        CommandKind::No => Some(seq!["shutdown"@, "ntp"@, "ip"@]),
        CommandKind::Clear => None,
        CommandKind::Ntp => Some(seq!["source"@, "server"@, "master"@, "authenticate"@, "authentication-key"@, "trusted-key"@]),
        CommandKind::Service => Some(seq!["password-encryption"@]),
        CommandKind::Ssh => Some(seq!["-v"@, "-l"@, "-h"@, "--help"@]),
        CommandKind::Ping => None,
        CommandKind::Traceroute => None,
    }
}

/// The words suggested two levels further in.
pub open spec fn third_suggestions(k: CommandKind) -> Option<Seq<Seq<char>>> {
    match k {
        CommandKind::Enable => None,
        CommandKind::Configure => None,
        CommandKind::Interface => None,
        CommandKind::Connect => None,
        CommandKind::Exit => None,
        CommandKind::Disable => None,
        CommandKind::Reload => None,
        CommandKind::Poweroff => None,
        CommandKind::Debug => None,
        CommandKind::Undebug => None,
        CommandKind::Hostname => None,
        CommandKind::Ifconfig => None,
        CommandKind::Show => None,
        CommandKind::Do => Some(seq!["running-config"@, "startup-config"@, "version"@, "ntp"@, "processes"@, "clock"@, "uptime"@, "controllers"@, "history"@, "sessions"@, "ip"@, "interfaces"@, "login"@]),
        CommandKind::Write => None,
        CommandKind::Copy => Some(seq!["startup-config"@]),
        CommandKind::Help => None,
        CommandKind::Clock => None,
        CommandKind::Ip => None,
        CommandKind::Shutdown => None,
        CommandKind::No => Some(seq!["server"@, "route"@]),
        CommandKind::Clear => None,
        CommandKind::Ntp => None,
        CommandKind::Service => None,
        CommandKind::Ssh => None,
        CommandKind::Ping => None,
        CommandKind::Traceroute => None,
    }
}

/// Free-text hints on the arguments the command takes.
pub open spec fn option_hints(k: CommandKind) -> Option<Seq<Seq<char>>> {
    match k {
        CommandKind::Enable => Some(seq!["<password>      - Enter the password/secret>"@]),
        CommandKind::Configure => None,
        CommandKind::Interface => Some(seq!["<interface-name>    - Specify a valid interface name"@]),
        CommandKind::Connect => None,
        CommandKind::Exit => None,
        CommandKind::Disable => None,
        CommandKind::Reload => None,
        CommandKind::Poweroff => None,
        CommandKind::Debug => None,
        CommandKind::Undebug => None,
        CommandKind::Hostname => Some(seq!["<new-hostname>    - Enter a new hostname"@]),
        CommandKind::Ifconfig => Some(seq!["<interface>         - Network interface name"@]),
        CommandKind::Show => None,
        CommandKind::Do => None,
        CommandKind::Write => None,
        CommandKind::Copy => Some(seq!["<file_name>     - Enter the file name or 'startup-config'"@, "startup-config"@]),
        CommandKind::Help => None,
        CommandKind::Clock => Some(seq!["<hh:mm:ss>      - Enter the time in this specified format"@, "<day>      - Enter the day '1-31'"@, "<month>    - Enter a valid month"@, "<year>     - Enter the year"@]),
        CommandKind::Ip => Some(seq!["<IP_Address>   - Enter the IP Address"@, "<subnetmask>   - Enter the subnet mask"@]),
        CommandKind::Shutdown => None,
        CommandKind::No => None,
        CommandKind::Clear => None,
        CommandKind::Ntp => None,
        CommandKind::Service => None,
        CommandKind::Ssh => Some(seq!["<login-name>       - Enter the hostname"@, "<ip_address>       - Enter the host IP address"@]),
        CommandKind::Ping => Some(seq!["<ip-address>    - Enter the ip-address"@]),
        CommandKind::Traceroute => Some(seq!["<ip-address/hostname>    - Enter the IP address or hostname"@]),
    }
}

/// The views of a list of words.
pub open spec fn word_views(v: Seq<&'static str>) -> Seq<Seq<char>> {
    v.map_values(|s: &'static str| s@)
}

pub open spec fn words_view(v: Option<Vec<&'static str>>) -> Option<Seq<Seq<char>>> {
    match v {
        Some(w) => Some(word_views(w@)),
        None => None,
    }
}

/// The static descriptor of one command: its token, canonical name, description, the
/// suggestion lists for interactive help at three depths, and hints on its arguments.
#[derive(Clone, Debug)]
pub struct Command {
    pub kind: CommandKind,
    pub key: &'static str,
    pub name: &'static str,
    pub description: &'static str,
    pub suggestions: Option<Vec<&'static str>>,
    pub suggestions1: Option<Vec<&'static str>>,
    pub suggestions2: Option<Vec<&'static str>>,
    pub options: Option<Vec<&'static str>>,
}

impl Command {
    /// Whether this descriptor is the one the registry holds for `k`.
    pub open spec fn describes(self, k: CommandKind) -> bool {
        &&& self.kind == k
        &&& self.key@ == key_text(k)
        &&& self.name@ == name_text(k)
        &&& self.description@ == description_text(k)
        &&& words_view(self.suggestions) == first_suggestions(k)
        &&& words_view(self.suggestions1) == second_suggestions(k)
        &&& words_view(self.suggestions2) == third_suggestions(k)
        &&& words_view(self.options) == option_hints(k)
    }

    /// The descriptor of `k`.
    pub fn of(k: CommandKind) -> (r: Command)
        ensures
            r.describes(k),
    {
        let c = match k {
            CommandKind::Enable => Command {
                kind: k,
                key: "enable",
                name: "enable",
                description: "Enter privileged EXEC mode",
                suggestions: Some(vec!["password", "secret"]),
                suggestions1: None,
                suggestions2: None,
                options: Some(vec!["<password>      - Enter the password/secret>"]),
            },
            CommandKind::Configure => Command {
                kind: k,
                key: "configure",
                name: "configure terminal",
                description: "Enter global configuration mode",
                suggestions: Some(vec!["terminal"]),
                suggestions1: Some(vec!["terminal"]),
                suggestions2: None,
                options: None,
            },
            CommandKind::Interface => Command {
                kind: k,
                key: "interface",
                name: "interface",
                description: "Enter Interface configuration mode",
                suggestions: None,
                suggestions1: None,
                suggestions2: None,
                options: Some(vec!["<interface-name>    - Specify a valid interface name"]),
            },
            CommandKind::Connect => Command {
                kind: k,
                key: "connect",
                name: "connect",
                description: "Connect to network processor or crypto module",
                suggestions: Some(vec!["network", "crypto"]),
                suggestions1: Some(vec!["network", "crypto"]),
                suggestions2: None,
                options: None,
            },
            CommandKind::Exit => Command {
                kind: k,
                key: "exit",
                name: "exit",
                description: "Exit the current mode and return to the previous mode.",
                suggestions: None,
                suggestions1: None,
                suggestions2: None,
                options: None,
            },
            CommandKind::Disable => Command {
                kind: k,
                key: "disable",
                name: "disable",
                description: "Exit the Privileged EXEC mode and return to the USER EXEC mode.",
                suggestions: None,
                suggestions1: None,
                suggestions2: None,
                options: None,
            },
            CommandKind::Reload => Command {
                kind: k,
                key: "reload",
                name: "reload",
                description: "Reload the system",
                suggestions: None,
                suggestions1: None,
                suggestions2: None,
                options: None,
            },
            CommandKind::Poweroff => Command {
                kind: k,
                key: "poweroff",
                name: "poweroff",
                description: "Shutdown the Management PC",
                suggestions: None,
                suggestions1: None,
                suggestions2: None,
                options: None,
            },
            CommandKind::Debug => Command {
                kind: k,
                key: "debug",
                name: "debug all",
                description: "To turn on all the possible debug levels",
                suggestions: Some(vec!["all"]),
                suggestions1: Some(vec!["all"]),
                suggestions2: None,
                options: None,
            },
            CommandKind::Undebug => Command {
                kind: k,
                key: "undebug",
                name: "undebug all",
                description: "Turning off all possible debugging processes",
                suggestions: Some(vec!["all"]),
                suggestions1: Some(vec!["all"]),
                suggestions2: None,
                options: None,
            },
            CommandKind::Hostname => Command {
                kind: k,
                key: "hostname",
                name: "hostname",
                description: "Set the device hostname",
                suggestions: None,
                suggestions1: None,
                suggestions2: None,
                options: Some(vec!["<new-hostname>    - Enter a new hostname"]),
            },
            CommandKind::Ifconfig => Command {
                kind: k,
                key: "ifconfig",
                name: "ifconfig",
                description: "Configure a network interface",
                suggestions: None,
                suggestions1: None,
                suggestions2: None,
                options: Some(vec!["<interface>         - Network interface name"]),
            },
            CommandKind::Show => Command {
                kind: k,
                key: "show",
                name: "show",
                description: "Display all the show commands when specific command is passed in the specific mode",
                suggestions: Some(vec!["running-config", "startup-config", "version", "ntp", "processes", "clock", "uptime", "controllers", "history", "sessions", "interfaces", "ip", "login"]),
                suggestions1: Some(vec!["running-config", "startup-config", "version", "ntp", "processes", "clock", "uptime", "controllers", "history", "sessions", "interfaces", "ip", "login"]),
                suggestions2: None,
                options: None,
            },
            CommandKind::Do => Command {
                kind: k,
                key: "do",
                name: "do",
                description: "Execute privileged EXEC commands from any configuration mode",
                suggestions: Some(vec!["show"]),
                suggestions1: Some(vec!["show"]),
                suggestions2: Some(vec!["running-config", "startup-config", "version", "ntp", "processes", "clock", "uptime", "controllers", "history", "sessions", "ip", "interfaces", "login"]),
                options: None,
            },
            CommandKind::Write => Command {
                kind: k,
                key: "write",
                name: "write memory",
                description: "Save the running configuration to the startup configuration",
                suggestions: Some(vec!["memory"]),
                suggestions1: Some(vec!["memory"]),
                suggestions2: None,
                options: None,
            },
            CommandKind::Copy => Command {
                kind: k,
                key: "copy",
                name: "copy",
                description: "Copy running configuration",
                suggestions: Some(vec!["running-config"]),
                suggestions1: Some(vec!["running-config"]),
                suggestions2: Some(vec!["startup-config"]),
                options: Some(vec!["<file_name>     - Enter the file name or 'startup-config'", "startup-config"]),
            },
            CommandKind::Help => Command {
                kind: k,
                key: "help",
                name: "help",
                description: "Display available commands for current mode",
                suggestions: None,
                suggestions1: None,
                suggestions2: None,
                options: None,
            },
            CommandKind::Clock => Command {
                kind: k,
                key: "clock",
                name: "clock set",
                description: "Change the clock date and time",
                suggestions: Some(vec!["set"]),
                suggestions1: Some(vec!["set"]),
                suggestions2: None,
                options: Some(vec!["<hh:mm:ss>      - Enter the time in this specified format", "<day>      - Enter the day '1-31'", "<month>    - Enter a valid month", "<year>     - Enter the year"]),
            },
            CommandKind::Ip => Command {
                kind: k,
                key: "ip",
                name: "ip",
                description: "Define all the ip commands",
                suggestions: Some(vec!["address", "route"]),
                suggestions1: Some(vec!["address", "route"]),
                suggestions2: None,
                options: Some(vec!["<IP_Address>   - Enter the IP Address", "<subnetmask>   - Enter the subnet mask"]),
            },
            CommandKind::Shutdown => Command {
                kind: k,
                key: "shutdown",
                name: "shutdown",
                description: "Disable the selected network interface.",
                suggestions: None,
                suggestions1: None,
                suggestions2: None,
                options: None,
            },
            CommandKind::No => Command {
                kind: k,
                key: "no",
                name: "no",
                description: "Enable the selected network interface.",
                suggestions: Some(vec!["shutdown", "ntp", "ip"]),
                suggestions1: Some(vec!["shutdown", "ntp", "ip"]),
                suggestions2: Some(vec!["server", "route"]),
                options: None,
            },
            CommandKind::Clear => Command {
                kind: k,
                key: "clear",
                name: "clear",
                description: "Clear processes",
                suggestions: Some(vec!["ntp associations"]),
                suggestions1: None,
                suggestions2: None,
                options: None,
            },
            CommandKind::Ntp => Command {
                kind: k,
                key: "ntp",
                name: "ntp",
                description: "NTP configuration commands",
                suggestions: Some(vec!["source", "server", "master", "authenticate", "authentication-key", "trusted-key"]),
                suggestions1: Some(vec!["source", "server", "master", "authenticate", "authentication-key", "trusted-key"]),
                suggestions2: None,
                options: None,
            },
            CommandKind::Service => Command {
                kind: k,
                key: "service",
                name: "service password-encryption",
                description: "Enable password encryption",
                suggestions: Some(vec!["password-encryption"]),
                suggestions1: Some(vec!["password-encryption"]),
                suggestions2: None,
                options: None,
            },
            CommandKind::Ssh => Command {
                kind: k,
                key: "ssh",
                name: "ssh",
                description: "Establish SSH connection to a remote host",
                suggestions: Some(vec!["-v", "-l", "-h", "--help"]),
                suggestions1: Some(vec!["-v", "-l", "-h", "--help"]),
                suggestions2: None,
                options: Some(vec!["<login-name>       - Enter the hostname", "<ip_address>       - Enter the host IP address"]),
            },
            CommandKind::Ping => Command {
                kind: k,
                key: "ping",
                name: "ping",
                description: "Ping a specific IP address to check reachability",
                suggestions: None,
                suggestions1: None,
                suggestions2: None,
                options: Some(vec!["<ip-address>    - Enter the ip-address"]),
            },
            CommandKind::Traceroute => Command {
                kind: k,
                key: "traceroute",
                name: "traceroute",
                description: "Trace the route to a specific IP address or hostname",
                suggestions: None,
                suggestions1: None,
                suggestions2: None,
                options: Some(vec!["<ip-address/hostname>    - Enter the IP address or hostname"]),
            },
        };
        proof {
            assert(words_view(c.suggestions) =~~= first_suggestions(k));
            assert(words_view(c.suggestions1) =~~= second_suggestions(k));
            assert(words_view(c.suggestions2) =~~= third_suggestions(k));
            assert(words_view(c.options) =~~= option_hints(k));
        }
        c
    }
}

/// Finds the command that a first token selects, by exact match.
pub fn lookup(token: &str) -> (r: Option<CommandKind>)
    ensures
        r == command_named(token@),
{
    if str_eq(token, "enable") {
        Some(CommandKind::Enable)
    } else if str_eq(token, "configure") {
        Some(CommandKind::Configure)
    } else if str_eq(token, "interface") {
        Some(CommandKind::Interface)
    } else if str_eq(token, "connect") {
        Some(CommandKind::Connect)
    } else if str_eq(token, "exit") {
        Some(CommandKind::Exit)
    } else if str_eq(token, "disable") {
        Some(CommandKind::Disable)
    } else if str_eq(token, "reload") {
        Some(CommandKind::Reload)
    } else if str_eq(token, "poweroff") {
        Some(CommandKind::Poweroff)
    } else if str_eq(token, "debug") {
        Some(CommandKind::Debug)
    } else if str_eq(token, "undebug") {
        Some(CommandKind::Undebug)
    } else if str_eq(token, "hostname") {
        Some(CommandKind::Hostname)
    } else if str_eq(token, "ifconfig") {
        Some(CommandKind::Ifconfig)
    } else if str_eq(token, "show") {
        Some(CommandKind::Show)
    } else if str_eq(token, "do") {
        Some(CommandKind::Do)
    } else if str_eq(token, "write") {
        Some(CommandKind::Write)
    } else if str_eq(token, "copy") {
        Some(CommandKind::Copy)
    } else if str_eq(token, "help") {
        Some(CommandKind::Help)
    } else if str_eq(token, "clock") {
        Some(CommandKind::Clock)
    } else if str_eq(token, "ip") {
        Some(CommandKind::Ip)
    } else if str_eq(token, "shutdown") {
        Some(CommandKind::Shutdown)
    } else if str_eq(token, "no") {
        Some(CommandKind::No)
    } else if str_eq(token, "clear") {
        Some(CommandKind::Clear)
    } else if str_eq(token, "ntp") {
        Some(CommandKind::Ntp)
    } else if str_eq(token, "service") {
        Some(CommandKind::Service)
    } else if str_eq(token, "ssh") {
        Some(CommandKind::Ssh)
    } else if str_eq(token, "ping") {
        Some(CommandKind::Ping)
    } else if str_eq(token, "traceroute") {
        Some(CommandKind::Traceroute)
    } else {
        None
    }
}

/// Builds the registry: one descriptor per command, in the order of `all_kinds`.
pub fn build_command_registry() -> (r: Vec<Command>)
    ensures
        r@.len() == all_kinds().len(),
        forall|i: int| 0 <= i < r@.len() ==> #[trigger] r@[i].describes(all_kinds()[i]),
{
    let kinds = vec![
        CommandKind::Enable,
        CommandKind::Configure,
        CommandKind::Interface,
        CommandKind::Connect,
        CommandKind::Exit,
        CommandKind::Disable,
        CommandKind::Reload,
        CommandKind::Poweroff,
        CommandKind::Debug,
        CommandKind::Undebug,
        CommandKind::Hostname,
        CommandKind::Ifconfig,
        CommandKind::Show,
        CommandKind::Do,
        CommandKind::Write,
        CommandKind::Copy,
        CommandKind::Help,
        CommandKind::Clock,
        CommandKind::Ip,
        CommandKind::Shutdown,
        CommandKind::No,
        CommandKind::Clear,
        CommandKind::Ntp,
        CommandKind::Service,
        CommandKind::Ssh,
        CommandKind::Ping,
        CommandKind::Traceroute,
    ];
    proof {
        assert(kinds@ =~= all_kinds());
    }
    let mut commands: Vec<Command> = Vec::new();
    let mut i: usize = 0;
    while i < kinds.len()
        invariant
            kinds@ == all_kinds(),
            i <= kinds@.len(),
            commands@.len() == i,
            forall|j: int| 0 <= j < i ==> #[trigger] commands@[j].describes(all_kinds()[j]),
        decreases kinds@.len() - i,
    {
        commands.push(Command::of(kinds[i]));
        i = i + 1;
    }
    commands
}

/// The depth of help that a position in a command line asks for.
pub open spec fn suggestions_at(k: CommandKind, depth: nat) -> Option<Seq<Seq<char>>> {
    if depth == 0 {
        first_suggestions(k)
    } else if depth == 1 {
        second_suggestions(k)
    } else if depth == 2 {
        third_suggestions(k)
    } else {
        None
    }
}

/// The words that may follow after `depth` further tokens of a command, for interactive
/// help; advisory only.
pub fn suggestions_for(command: &Command, depth: usize) -> (r: Option<Vec<&'static str>>)
    requires
        command.describes(command.kind),
    ensures
        words_view(r) == suggestions_at(command.kind, depth as nat),
{
    if depth == 0 {
        command.suggestions.clone()
    } else if depth == 1 {
        command.suggestions1.clone()
    } else if depth == 2 {
        command.suggestions2.clone()
    } else {
        None
    }
}

} // verus!
