use pnf_cli::clicommands::CommandKind;
use pnf_cli::context::CliContext;
use pnf_cli::run_config::get_running_config;
use pnf_cli::errors::{AuthFailure, CliError, Usage};
use pnf_cli::messages::modes_message;
use pnf_cli::mode::{render_prompt, Mode, ModeSet};
use pnf_cli::network_config::{
    calculate_broadcast, format_flags, interface_lines, interface_names, ip_with_cidr,
    is_ipv4_addr, netplan_choice, netplan_files, InterfaceConfig, Ipv4Address, OSPFConfig,
};
use pnf_cli::outcome::{Credential, Notice};
use pnf_cli::show_c::{fixed2_string, show_version};
use pnf_cli::text::{
    count_ones, decimal_string, parse_unsigned, spells_word, split_char, split_once_char, str_eq,
    tokenize,
};

fn ip(a: u8, b: u8, c: u8, d: u8) -> Ipv4Address {
    Ipv4Address { a, b, c, d }
}

fn strings(v: &[&str]) -> Vec<String> {
    v.iter().map(|s| s.to_string()).collect()
}

#[test]
fn cidr_prefix_from_mask() {
    assert_eq!(ip_with_cidr("192.168.1.10", "255.255.255.0"), Ok("192.168.1.10/24".to_string()));
    assert_eq!(ip_with_cidr("10.0.0.1", "255.0.0.0"), Ok("10.0.0.1/8".to_string()));
    assert_eq!(ip_with_cidr("10.0.0.1", "255.255.255.255"), Ok("10.0.0.1/32".to_string()));
    assert_eq!(ip_with_cidr("10.0.0.1", "0.0.0.0"), Ok("10.0.0.1/0".to_string()));
    assert_eq!(ip_with_cidr("10.0.0.1", "255.255.255.252"), Ok("10.0.0.1/30".to_string()));
    assert_eq!(ip_with_cidr("10.0.0.1", "255.255.255.abc"), Err("Invalid subnet mask".to_string()));
    assert_eq!(ip_with_cidr("10.0.0.1", "255.abc.255.0"), Err("Invalid subnet mask".to_string()));
    assert_eq!(ip_with_cidr("10.0.0.1", "255.255.255.300"), Err("Invalid subnet mask".to_string()));
    assert_eq!(ip_with_cidr("10.0.0.1", "255.255.255."), Err("Invalid subnet mask".to_string()));
    assert_eq!(ip_with_cidr("10.0.0.1", "255.255.0"), Err("Invalid subnet mask".to_string()));
    assert_eq!(ip_with_cidr("10.0.0.1", ""), Err("Invalid subnet mask".to_string()));
}

#[test]
fn broadcast_sets_host_bits() {
    assert_eq!(calculate_broadcast(ip(192, 168, 1, 1), ip(255, 255, 255, 0)), ip(192, 168, 1, 255));
    assert_eq!(calculate_broadcast(ip(10, 1, 2, 3), ip(255, 0, 0, 0)), ip(10, 255, 255, 255));
    assert_eq!(calculate_broadcast(ip(10, 1, 2, 3), ip(255, 255, 255, 255)), ip(10, 1, 2, 3));
}

#[test]
fn ipv4_text_validation() {
    assert!(is_ipv4_addr("10.0.0.1"));
    assert!(is_ipv4_addr("255.255.255.255"));
    assert!(is_ipv4_addr("0.0.0.0"));
    assert!(!is_ipv4_addr("256.0.0.1"));
    assert!(!is_ipv4_addr("01.2.3.4"));
    assert!(!is_ipv4_addr("+1.2.3.4"));
    assert!(!is_ipv4_addr("1.2.3"));
    assert!(!is_ipv4_addr("1.2.3.4."));
    assert!(!is_ipv4_addr("1..3.4"));
    assert!(!is_ipv4_addr("1234.1.1.1"));
}

#[test]
fn decimal_and_fixed_point() {
    assert_eq!(decimal_string(0), "0");
    assert_eq!(decimal_string(907), "907");
    assert_eq!(decimal_string(18446744073709551615), "18446744073709551615");
    assert_eq!(fixed2_string(0), "0.00");
    assert_eq!(fixed2_string(1), "0.01");
    assert_eq!(fixed2_string(-1234), "-12.34");
    assert_eq!(fixed2_string(250), "2.50");
    assert_eq!(fixed2_string(i32::MIN), "-21474836.48");
}

#[test]
fn unsigned_parsing() {
    assert_eq!(parse_unsigned("255", 255), Some(255));
    assert_eq!(parse_unsigned("256", 255), None);
    assert_eq!(parse_unsigned("007", 255), Some(7));
    assert_eq!(parse_unsigned("+9", 255), Some(9));
    assert_eq!(parse_unsigned("99999999999999999999", 255), None);
    assert_eq!(parse_unsigned("-1", 255), None);
}

#[test]
fn counting_bits() {
    assert_eq!(count_ones(0), 0);
    assert_eq!(count_ones(0xF0), 4);
    assert_eq!(count_ones(0xFF), 8);
    assert_eq!(count_ones(0b1010_0101), 4);
}

#[test]
fn splitting_text() {
    assert_eq!(tokenize("  show  ip\troute "), strings(&["show", "ip", "route"]));
    assert!(tokenize("").is_empty());
    assert_eq!(tokenize("show\u{0B}ntp\u{A0}associations\u{3000}"), strings(&["show", "ntp", "associations"]));
    assert_eq!(split_char("a..b", '.'), strings(&["a", "", "b"]));
    assert_eq!(split_char("", '.'), strings(&[""]));
    assert_eq!(split_once_char("a@b@c", '@'), Some(("a".to_string(), "b@c".to_string())));
    assert_eq!(split_once_char("abc", '@'), None);
    assert!(str_eq("abc", "abc"));
    assert!(!str_eq("abc", "abd"));
    assert!(spells_word("YeS", "yes"));
    assert!(!spells_word("yes!", "yes"));
}

#[test]
fn prompts_per_mode() {
    let h = "R1".to_string();
    assert_eq!(render_prompt(&h, Mode::UserMode), "R1>");
    assert_eq!(render_prompt(&h, Mode::PrivilegedMode), "R1#");
    assert_eq!(render_prompt(&h, Mode::ConfigMode), "R1(config)#");
    assert_eq!(render_prompt(&h, Mode::InterfaceMode), "R1(config-if)#");
}

#[test]
fn interface_description() {
    let c = InterfaceConfig {
        ip_address: ip(192, 168, 1, 5),
        netmask: ip(255, 255, 255, 0),
        broadcast: ip(192, 168, 1, 255),
        mac_address: "00:11:22:33:44:55".to_string(),
        mtu: 1500,
        flags: strings(&["BROADCAST", "RUNNING"]),
        is_up: true,
    };
    assert_eq!(format_flags(&c), "<UP,BROADCAST,RUNNING>");
    let lines = interface_lines("eth0", &c);
    assert_eq!(lines[0], "eth0: flags=4163<UP,BROADCAST,RUNNING> mtu 1500");
    assert_eq!(lines[1], "        inet 192.168.1.5 netmask 255.255.255.0 broadcast 192.168.1.255");
    assert_eq!(lines[2], "        ether 00:11:22:33:44:55 txqueuelen 1000 (Ethernet)");
    let down = InterfaceConfig { is_up: false, flags: Vec::new(), ..c };
    assert_eq!(format_flags(&down), "<>");
}

#[test]
fn interface_name_list() {
    assert_eq!(interface_names(&strings(&["lo", "eth0", "wlan0"])), "lo, eth0, wlan0");
    assert_eq!(interface_names(&Vec::new()), "");
}

#[test]
fn netplan_file_choice() {
    let names = strings(&["README", "01-netcfg.yaml", "50-cloud.yaml", "x.yml"]);
    assert_eq!(netplan_files(&names), strings(&["01-netcfg.yaml", "50-cloud.yaml"]));
    assert_eq!(netplan_choice(&names), Some("01-netcfg.yaml".to_string()));
    assert_eq!(netplan_choice(&strings(&["a.yml", ".yam"])), None);
}

#[test]
fn ospf_defaults() {
    let o = OSPFConfig::new();
    assert!(o.passive_interfaces.is_empty());
    assert!(o.areas.is_empty());
    assert!(o.process_id.is_none());
    assert!(!o.default_information_originate);
}

#[test]
fn error_messages() {
    let e = CliError::ModeMismatch {
        command: CommandKind::Configure,
        permitted: ModeSet { user: false, privileged: true, config: false, interface: false },
    };
    assert_eq!(e.message(), "The 'configure terminal' command is only available in Privileged EXEC mode.");
    let e = CliError::ModeMismatch {
        command: CommandKind::Interface,
        permitted: ModeSet { user: false, privileged: false, config: true, interface: true },
    };
    assert_eq!(
        e.message(),
        "The 'interface' command is only available in Global Configuration mode, Interface Configuration mode."
    );
    assert_eq!(CliError::Auth(AuthFailure::IncorrectPasswordOrSecret).message(), "Incorrect password or secret.");
    assert_eq!(CliError::Auth(AuthFailure::IncorrectPassword).message(), "Incorrect password.");
    assert_eq!(CliError::Auth(AuthFailure::IncorrectSecret).message(), "Incorrect secret.");
    assert_eq!(
        CliError::UnknownInterface { name: "x".to_string(), available: strings(&["lo", "eth0"]) }.message(),
        "Invalid interface: x. Available interfaces: lo, eth0"
    );
    assert_eq!(CliError::Usage(Usage::Ping).message(), "Invalid syntax. Usage: ping <ip>");
    assert_eq!(CliError::NtpServerNotFound("1.2.3.4".to_string()).message(), "NTP server 1.2.3.4 not found.");
    assert_eq!(CliError::Collaborator("boom".to_string()).message(), "boom");
    assert_eq!(CliError::NoModeToExit.message(), "No mode to exit.");
    assert_eq!(modes_message(ModeSet { user: true, privileged: true, config: false, interface: false }),
        "User EXEC mode, Privileged EXEC mode");
}

#[test]
fn notice_lines() {
    assert_eq!(Notice::NtpKeyAdded(12, "k".to_string()).lines(),
        strings(&["NTP authentication key 12 configured with MD5 key: k"]));
    assert_eq!(Notice::NtpAuthentication(false).lines(), strings(&["NTP authentication disabled"]));
    assert_eq!(Notice::CredentialSet(Credential::Secret).lines(), strings(&["Enable secret password set."]));
    assert_eq!(Notice::HostnameChanged("r2".to_string()).lines(), strings(&["Hostname changed to 'r2'"]));
    assert_eq!(Notice::SshHelp.lines().len(), 6);
    assert_eq!(Notice::InvalidSshOption("-q".to_string()).lines(),
        strings(&["Invalid SSH option: -q", "Use 'ssh -h' for help"]));
    assert_eq!(show_version(), "PNF_MPC_CLI_Version --> '1.0.0'");
}

#[test]
fn running_config_template_of_empty_session() {
    let ctx = CliContext::new("Router".to_string());
    let text = get_running_config(&ctx);
    let lines: Vec<&str> = text.lines().collect();
    assert_eq!(lines[0], "version 15.1");
    assert_eq!(lines[2], "no service password-encryption");
    assert_eq!(lines[4], "hostname Router");
    assert_eq!(lines[6], "enable password 5 ");
    assert_eq!(lines[7], "enable secret 5 ");
    assert_eq!(lines[9], "interface FastEthernet0/1");
    assert_eq!(lines[10], " ip address no ip address");
    assert_eq!(lines[13], " shutdown");
    assert!(text.contains("interface FastEthernet0/1\n ip address no ip address\n"));
    assert_eq!(*lines.last().unwrap(), "end");
}
