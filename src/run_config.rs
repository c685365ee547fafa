use vstd::prelude::*;

use crate::context::CliContext;
use crate::dispatch::strings;
use crate::mode::Mode;
use crate::text::views;

verus! {

/// The opening lines of the help text, the same in every mode.
pub open spec fn help_intro() -> Seq<Seq<char>> {
    seq![
        "Help may be requested at any point in a command by entering"@,
        "a question mark '?'. If nothing matches, the help list will"@,
        "be empty and you must backup until entering a '?' shows the"@,
        "available options."@,
        "Two styles of help are provided:"@,
        "1. Full help is available when you are ready to enter a"@,
        "   command argument (e.g. 'show ?') and describes each possible"@,
        "   argument."@,
        "2. Partial help is provided when an abbreviated argument is entered"@,
        "   and you want to know what arguments match the input"@,
        "   (e.g. 'show pr?'."@,
        ""@,
        "Available commands"@,
        ""@,
    ]
}

/// The commands that the help text lists for each mode.
pub open spec fn help_entries(m: Mode) -> Seq<Seq<char>> {
    match m {
        Mode::UserMode => seq![
            "enable            - Enter privileged mode"@,
            "exit              - Exit current mode"@,
            "ping              - Send ICMP echo request"@,
            "traceroute        - Display the packet transfer path"@,
            "help              - Display available commands"@,
            "reload            - Reload the system"@,
            "clear             - Clear the terminal"@,
            "show              - Some available show commands are present. To view enter 'show ?'"@,
            "write             - Save the configuration"@,
            "ifconfig          - Display interface configuration"@,
            "connect           - Connect the Network Processor or the SEM"@,
        ],
        Mode::PrivilegedMode => seq![
            "configure         - Enter configuration mode"@,
            "exit              - Exit to user mode"@,
            "help              - Display available commands"@,
            "write             - Save the configuration"@,
            "copy              - Copy configuration files"@,
            "clock             - Manage system clock"@,
            "ping              - Send ICMP echo request"@,
            "traceroute        - Display the packet transfer path"@,
            "show              - Some available show commands are present. To view enter 'show ?'"@,
            "ifconfig          - Display interface configuration"@,
            "reload            - Reload the system"@,
            "clear             - Clear the terminal"@,
            "debug             - Debug the availbale processes"@,
            "undebug           - Undebug the availbale processes"@,
            "connect           - Connect the Network Processor or the SEM"@,
            "ssh               - Connect via SSH or show ssh version"@,
            "disable           - Exit the Privileged EXEC Mode and enter the USER EXEC Mode"@,
        ],
        Mode::ConfigMode => seq![
            "hostname          - Set system hostname"@,
            "exit              - Exit to privileged mode"@,
            "help              - Display available commands"@,
            "write             - Save the configuration"@,
            "ping              - Send ICMP echo request"@,
            "traceroute        - Display the packet transfer path"@,
            "enable            - Enter privileged mode"@,
            "service password encryption - Encrypt passwords defined for the device"@,
            "ifconfig          - Configure interface"@,
            "ntp               - Configure NTP"@,
            "no ntp            - Remove NTP configurations"@,
            "reload            - Reload the system"@,
            "interface         - Select another interface"@,
            "clear             - Clear the terminal"@,
        ],
        Mode::InterfaceMode => seq![
            "exit              - Exit to config mode"@,
            "shutdown          - Shutdown interface"@,
            "no                - Negate a command"@,
            "help              - Display available commands"@,
            "write             - Save the configuration"@,
            "interface         - Select another interface"@,
            "ip address        - Set IP address"@,
            "reload            - Reload the system"@,
            "clear             - Clear the terminal"@,
        ],
    }
}

/// The help text of mode `m`, line by line.
pub open spec fn help_text(m: Mode) -> Seq<Seq<char>> {
    help_intro() + help_entries(m)
}

/// The help text for the session's current mode: how help works, then the commands
/// available there.
pub fn help_command(context: &CliContext) -> (r: Vec<String>)
    ensures
        views(r@) == help_text(context.current_mode),
{
    let intro = strings(vec![
        "Help may be requested at any point in a command by entering",
        "a question mark '?'. If nothing matches, the help list will",
        "be empty and you must backup until entering a '?' shows the",
        "available options.",
        "Two styles of help are provided:",
        "1. Full help is available when you are ready to enter a",
        "   command argument (e.g. 'show ?') and describes each possible",
        "   argument.",
        "2. Partial help is provided when an abbreviated argument is entered",
        "   and you want to know what arguments match the input",
        "   (e.g. 'show pr?'.",
        "",
        "Available commands",
        "",
    ]);
    proof {
        assert(views(intro@) =~= help_intro());
    }
    let entries = match context.current_mode {
        Mode::UserMode => {
            let e = strings(vec![
                "enable            - Enter privileged mode",
                "exit              - Exit current mode",
                "ping              - Send ICMP echo request",
                "traceroute        - Display the packet transfer path",
                "help              - Display available commands",
                "reload            - Reload the system",
                "clear             - Clear the terminal",
                "show              - Some available show commands are present. To view enter 'show ?'",
                "write             - Save the configuration",
                "ifconfig          - Display interface configuration",
                "connect           - Connect the Network Processor or the SEM",
            ]);
            proof {
                assert(views(e@) =~= help_entries(Mode::UserMode));
            }
            e
        },
        Mode::PrivilegedMode => {
            let e = strings(vec![
                "configure         - Enter configuration mode",
                "exit              - Exit to user mode",
                "help              - Display available commands",
                "write             - Save the configuration",
                "copy              - Copy configuration files",
                "clock             - Manage system clock",
                "ping              - Send ICMP echo request",
                "traceroute        - Display the packet transfer path",
                "show              - Some available show commands are present. To view enter 'show ?'",
                "ifconfig          - Display interface configuration",
                "reload            - Reload the system",
                "clear             - Clear the terminal",
                "debug             - Debug the availbale processes",
                "undebug           - Undebug the availbale processes",
                "connect           - Connect the Network Processor or the SEM",
                "ssh               - Connect via SSH or show ssh version",
                "disable           - Exit the Privileged EXEC Mode and enter the USER EXEC Mode",
            ]);
            proof {
                assert(views(e@) =~= help_entries(Mode::PrivilegedMode));
            }
            e
        },
        Mode::ConfigMode => {
            let e = strings(vec![
                "hostname          - Set system hostname",
                "exit              - Exit to privileged mode",
                "help              - Display available commands",
                "write             - Save the configuration",
                "ping              - Send ICMP echo request",
                "traceroute        - Display the packet transfer path",
                "enable            - Enter privileged mode",
                "service password encryption - Encrypt passwords defined for the device",
                "ifconfig          - Configure interface",
                "ntp               - Configure NTP",
                "no ntp            - Remove NTP configurations",
                "reload            - Reload the system",
                "interface         - Select another interface",
                "clear             - Clear the terminal",
            ]);
            proof {
                assert(views(e@) =~= help_entries(Mode::ConfigMode));
            }
            e
        },
        Mode::InterfaceMode => {
            let e = strings(vec![
                "exit              - Exit to config mode",
                "shutdown          - Shutdown interface",
                "no                - Negate a command",
                "help              - Display available commands",
                "write             - Save the configuration",
                "interface         - Select another interface",
                "ip address        - Set IP address",
                "reload            - Reload the system",
                "clear             - Clear the terminal",
            ]);
            proof {
                assert(views(e@) =~= help_entries(Mode::InterfaceMode));
            }
            e
        },
    };
    let mut lines = intro;
    let ghost first = views(lines@);
    let mut more = entries;
    let ghost second = views(more@);
    lines.append(&mut more);
    proof {
        assert(views(lines@) =~= first + second);
    }
    lines
}

/// The value stored for `name` in a list of named entries: the first entry of that name.
pub open spec fn entry_for<V>(s: Seq<(String, V)>, name: Seq<char>) -> Option<V>
    decreases s.len(),
{
    if s.len() == 0 {
        None
    } else if s[0].0@ == name {
        Some(s[0].1)
    } else {
        entry_for(s.drop_first(), name)
    }
}

fn address_of(list: &Vec<(String, String)>, name: &str) -> (r: Option<String>)
    ensures
        match entry_for(list@, name@) {
            Some(a) => r matches Some(x) && x@ == a@,
            None => r is None,
        },
{
    let mut i: usize = 0;
    proof {
        assert(list@.skip(0) =~= list@);
    }
    while i < list.len()
        invariant
            i <= list@.len(),
            entry_for(list@, name@) == entry_for(list@.skip(i as int), name@),
        decreases list@.len() - i,
    {
        proof {
            assert(list@.skip(i as int).drop_first() =~= list@.skip(i + 1));
        }
        if crate::text::str_eq(list[i].0.as_str(), name) {
            return Some(list[i].1.clone());
        }
        i = i + 1;
    }
    None
}

fn up_state_of(list: &Vec<(String, bool)>, name: &str) -> (r: Option<bool>)
    ensures
        r == entry_for(list@, name@),
{
    let mut i: usize = 0;
    proof {
        assert(list@.skip(0) =~= list@);
    }
    while i < list.len()
        invariant
            i <= list@.len(),
            entry_for(list@, name@) == entry_for(list@.skip(i as int), name@),
        decreases list@.len() - i,
    {
        proof {
            assert(list@.skip(i as int).drop_first() =~= list@.skip(i + 1));
        }
        if crate::text::str_eq(list[i].0.as_str(), name) {
            return Some(list[i].1);
        }
        i = i + 1;
    }
    None
}

pub open spec fn or_empty(o: Option<String>) -> Seq<char> {
    match o {
        Some(s) => s@,
        None => Seq::empty(),
    }
}

/// The interface that the running configuration describes: the selected one, or the
/// default port.
pub open spec fn config_interface(c: CliContext) -> Seq<char> {
    match c.selected_interface {
        Some(s) => s@,
        None => "FastEthernet0/1"@,
    }
}

/// The address line of the interface block: the stored address, or the words `no ip
/// address` in its place.
pub open spec fn address_line(c: CliContext) -> Seq<char> {
    match entry_for(c.interface_addresses@, config_interface(c)) {
        Some(a) => " ip address "@ + a@,
        None => " ip address no ip address"@,
    }
}

/// The shutdown line of the interface block: up only where the interface was brought up.
pub open spec fn shutdown_line(c: CliContext) -> Seq<char> {
    match entry_for(c.interface_up@, config_interface(c)) {
        Some(true) => " no shutdown"@,
        _ => " shutdown"@,
    }
}

pub open spec fn encryption_line(c: CliContext) -> Seq<char> {
    if c.config.password_encryption {
        "service password-encryption"@
    } else {
        "no service password-encryption"@
    }
}

/// The running configuration of a session, as text.
pub open spec fn running_config_text(c: CliContext) -> Seq<char> {
    "version 15.1\nno service timestamps log datetime msec\n"@ + encryption_line(c)
        + "\n!\nhostname "@ + c.config.hostname@ + "\n!\nenable password 5 "@ + or_empty(
        c.config.password_hash,
    ) + "\nenable secret 5 "@ + or_empty(c.config.secret_hash) + "\n!\ninterface "@
        + config_interface(c) + "\n"@ + address_line(c) + "\n duplex auto\n speed auto\n"@
        + shutdown_line(c) + config_tail()
}

/// The fixed end of the running configuration: the VLAN block, an empty OSPF block, `end`.
pub open spec fn config_tail() -> Seq<char> {
    "\n!\ninterface Vlan1\n no ip address\n shutdown\n!\nip classes\n\n!\nrouter ospf \n log-adjacency-changes\n passive-interface \n \n!\n\n!\n!\nend\n"@
}

/// Renders the running configuration: hostname, credential hashes, and the selected
/// interface with its address and shutdown state.
pub fn get_running_config(context: &CliContext) -> (r: String)
    ensures
        r@ == running_config_text(*context),
{
    let c = &context.config;
    let interface = match &context.selected_interface {
        Some(s) => s.clone(),
        None => "FastEthernet0/1".to_owned(),
    };
    let encryption = if c.password_encryption {
        "service password-encryption"
    } else {
        "no service password-encryption"
    };
    let password = match &c.password_hash {
        Some(h) => h.clone(),
        None => String::new(),
    };
    let secret = match &c.secret_hash {
        Some(h) => h.clone(),
        None => String::new(),
    };
    let address = match address_of(&context.interface_addresses, interface.as_str()) {
        Some(a) => " ip address ".to_owned().concat(a.as_str()),
        None => " ip address no ip address".to_owned(),
    };
    let state = match up_state_of(&context.interface_up, interface.as_str()) {
        Some(true) => " no shutdown",
        _ => " shutdown",
    };
    "version 15.1\nno service timestamps log datetime msec\n".to_owned().concat(encryption).concat(
        "\n!\nhostname ",
    ).concat(c.hostname.as_str()).concat("\n!\nenable password 5 ").concat(
        password.as_str(),
    ).concat("\nenable secret 5 ").concat(secret.as_str()).concat("\n!\ninterface ").concat(
        interface.as_str(),
    ).concat("\n").concat(address.as_str()).concat("\n duplex auto\n speed auto\n").concat(
        state,
    ).concat(
        "\n!\ninterface Vlan1\n no ip address\n shutdown\n!\nip classes\n\n!\nrouter ospf \n log-adjacency-changes\n passive-interface \n \n!\n\n!\n!\nend\n",
    )
}

} // verus!
