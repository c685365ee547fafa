use pnf_cli::clicommands::{build_command_registry, lookup, suggestions_for, Command, CommandKind};
use pnf_cli::context::{CliContext, Env};
use pnf_cli::dispatch::{confirm_reply, execute};
use pnf_cli::errors::{CliError, Usage};
use pnf_cli::mode::Mode;
use pnf_cli::outcome::{Confirmation, Notice, Outcome, RunPlan, StateUpdate};
use pnf_cli::run_config::{get_running_config, help_command};

fn env() -> Env {
    Env { interfaces: vec!["lo".to_string(), "eth0".to_string()], clock_available: false, interface_error: None }
}

fn run(ctx: &mut CliContext, line: &str) -> Result<Outcome, CliError> {
    execute(ctx, line, &env())
}

fn in_mode(m: Mode) -> CliContext {
    let mut ctx = CliContext::new("Router".to_string());
    if m == Mode::UserMode {
        return ctx;
    }
    assert!(run(&mut ctx, "enable").is_ok());
    if m == Mode::PrivilegedMode {
        return ctx;
    }
    assert!(run(&mut ctx, "configure terminal").is_ok());
    if m == Mode::ConfigMode {
        return ctx;
    }
    assert!(run(&mut ctx, "interface eth0").is_ok());
    ctx
}

fn plan(r: Result<Outcome, CliError>) -> RunPlan {
    match r {
        Ok(Outcome::Run(p)) => p,
        _ => panic!("expected a run plan"),
    }
}

fn call_text(p: &RunPlan, i: usize) -> String {
    let c = &p.calls[i];
    let mut words = vec![c.program.clone()];
    words.extend(c.args.iter().cloned());
    words.join(" ")
}

#[test]
fn ip_address_configures_selected_interface() {
    let mut ctx = in_mode(Mode::InterfaceMode);
    let p = plan(run(&mut ctx, "ip address 192.168.1.10 255.255.255.0"));
    assert_eq!(p.calls.len(), 2);
    assert_eq!(call_text(&p, 0), "sudo ifconfig eth0 192.168.1.10 netmask 255.255.255.0 up");
    assert_eq!(p.calls[1].program, "sh");
    assert_eq!(p.calls[1].args[0], "-c");
    assert!(p.calls[1].args[1].contains("- 192.168.1.10/24"));
    assert!(p.calls[1].args[1].ends_with("' | sudo tee /etc/netplan/*.yaml"));
    match &p.update {
        Some(StateUpdate::SetAddress { interface, address }) => {
            assert_eq!(interface, "eth0");
            assert_eq!(address, "192.168.1.10");
        }
        _ => panic!("expected an address update"),
    }
    assert!(p.before.is_empty());
    assert_eq!(p.after, vec!["IP address 192.168.1.10/24 is configured to the interface eth0".to_string()]);
    ctx.apply_update(p.update.unwrap());
    assert_eq!(ctx.interface_addresses, vec![("eth0".to_string(), "192.168.1.10".to_string())]);
    let text = get_running_config(&ctx);
    assert!(text.contains("interface eth0\n ip address 192.168.1.10\n"));
}

#[test]
fn ip_address_with_bad_mask() {
    let mut ctx = in_mode(Mode::InterfaceMode);
    assert!(matches!(run(&mut ctx, "ip address 10.0.0.1 255.255"), Err(CliError::InvalidSubnetMask)));
    assert!(matches!(run(&mut ctx, "ip address 10.0.0.1 255.x.255.0"), Err(CliError::InvalidSubnetMask)));
    assert!(matches!(run(&mut ctx, "ip address 10.0.0.300 255.255.255.0"), Err(CliError::InvalidAddress(ref a)) if a == "10.0.0.300"));
    assert!(matches!(run(&mut ctx, "ip address 10.0.0.1"), Err(CliError::Usage(Usage::IpAddress))));
}

#[test]
fn ip_address_needs_interface_mode() {
    let mut ctx = in_mode(Mode::ConfigMode);
    assert!(matches!(run(&mut ctx, "ip address 10.0.0.1 255.0.0.0"), Err(CliError::ModeMismatch { .. })));
    let p = plan(run(&mut ctx, "ip address"));
    assert_eq!(call_text(&p, 0), "ip a");
    assert_eq!(p.before, vec!["Interface details".to_string()]);
}

#[test]
fn ip_route_adds_route() {
    let mut ctx = in_mode(Mode::ConfigMode);
    let p = plan(run(&mut ctx, "ip route 10.1.0.0 255.255.0.0 eth0 192.168.1.1"));
    assert_eq!(call_text(&p, 0), "sudo ip route add 10.1.0.0/16 via 192.168.1.1 dev eth0");
    assert!(p.update.is_none());
    assert_eq!(p.before, vec!["Adding route to 10.1.0.0/16 via 192.168.1.1 on interface eth0".to_string()]);
    assert_eq!(p.after, vec!["Route added successfully".to_string()]);
    match run(&mut ctx, "ip route 10.1.0.0 255.255.0.0 wlan9 192.168.1.1") {
        Err(CliError::UnknownInterface { name, .. }) => assert_eq!(name, "wlan9"),
        _ => panic!("expected an unknown interface"),
    }
    assert!(matches!(run(&mut ctx, "ip route 10.1.0.0"), Err(CliError::Usage(Usage::IpRoute))));
    assert!(matches!(run(&mut ctx, "ip route 10.1.0 255.255.0.0 eth0 192.168.1.1"), Err(CliError::InvalidAddress(ref a)) if a == "10.1.0"));
    assert!(matches!(run(&mut ctx, "ip route 10.1.0.0 255.255.0.0 eth0 gateway"), Err(CliError::InvalidAddress(ref a)) if a == "gateway"));
    assert!(matches!(run(&mut ctx, "ip route 10.1.0.0 255.255.0.x eth0 192.168.1.1"), Err(CliError::InvalidSubnetMask)));
    assert!(matches!(run(&mut ctx, "ip"), Err(CliError::Usage(Usage::Ip))));
}

#[test]
fn no_ip_route_deletes_route() {
    let mut ctx = in_mode(Mode::ConfigMode);
    let p = plan(run(&mut ctx, "no ip route 10.1.0.0 255.255.0.0 eth0 192.168.1.1"));
    assert_eq!(call_text(&p, 0), "sudo ip route del 10.1.0.0/16 via 192.168.1.1 dev eth0");
    assert_eq!(p.before, vec!["Deleting route to 10.1.0.0/16 via 192.168.1.1 on interface eth0".to_string()]);
    assert_eq!(p.after, vec!["Route deleted successfully".to_string()]);
}

#[test]
fn shutdown_and_no_shutdown() {
    let mut ctx = in_mode(Mode::InterfaceMode);
    let p = plan(run(&mut ctx, "shutdown"));
    assert_eq!(call_text(&p, 0), "sudo ip link set eth0 down");
    assert_eq!(p.after, vec!["interface eth0 is set to down".to_string()]);
    ctx.apply_update(p.update.unwrap());
    assert!(get_running_config(&ctx).contains("\n shutdown\n!\ninterface Vlan1"));
    let p = plan(run(&mut ctx, "no shutdown"));
    assert_eq!(p.calls.len(), 2);
    assert_eq!(call_text(&p, 0), "sudo ip link set eth0 up");
    assert_eq!(call_text(&p, 1), "sudo netplan apply");
    assert_eq!(p.after, vec!["interface eth0 is set to up".to_string()]);
    ctx.apply_update(p.update.unwrap());
    assert_eq!(ctx.interface_up, vec![("eth0".to_string(), true)]);
    assert!(get_running_config(&ctx).contains(" no shutdown\n"));
}

#[test]
fn no_ip_address_removes_address() {
    let mut ctx = in_mode(Mode::InterfaceMode);
    let p = plan(run(&mut ctx, "no ip address 10.0.0.5 255.255.255.252"));
    assert_eq!(call_text(&p, 0), "sudo ip addr del 10.0.0.5/30 dev eth0");
    assert_eq!(p.after, vec!["IP address 10.0.0.5/30 is removed from the interface eth0".to_string()]);
    assert!(matches!(run(&mut ctx, "no ip address 10.0.0.5"), Err(CliError::Usage(Usage::IpAddress))));
    assert!(matches!(run(&mut ctx, "no ip address ten 255.0.0.0"), Err(CliError::InvalidAddress(_))));
    assert!(matches!(run(&mut ctx, "no frobs"), Err(CliError::Usage(Usage::No))));
}

#[test]
fn interface_commands_need_a_selection() {
    let mut ctx = in_mode(Mode::InterfaceMode);
    ctx.selected_interface = None;
    assert!(matches!(run(&mut ctx, "shutdown"), Err(CliError::NoInterfaceSelected)));
    assert!(matches!(run(&mut ctx, "ip address 1.2.3.4 255.0.0.0"), Err(CliError::NoInterfaceSelected)));
}

#[test]
fn show_subcommands() {
    let mut ctx = in_mode(Mode::PrivilegedMode);
    assert!(matches!(run(&mut ctx, "show clock"), Ok(Outcome::Notice(Notice::ClockUnavailable))));
    assert!(matches!(run(&mut ctx, "show startup-config"), Ok(Outcome::ShowStartup)));
    assert!(matches!(run(&mut ctx, "show history"), Ok(Outcome::ShowHistory)));
    assert_eq!(call_text(&plan(run(&mut ctx, "show ip interface brief")), 0), "ip a");
    assert_eq!(call_text(&plan(run(&mut ctx, "show ip route")), 0), "ip route");
    assert_eq!(call_text(&plan(run(&mut ctx, "show processes")), 0), "sudo lscpu");
    assert_eq!(call_text(&plan(run(&mut ctx, "show login")), 0), "sudo last");
    assert_eq!(call_text(&plan(run(&mut ctx, "show interfaces")), 0), "ls /sys/class/net");
    assert!(matches!(run(&mut ctx, "show ip interface"), Err(CliError::Usage(Usage::ShowIpInterface))));
    assert!(matches!(run(&mut ctx, "show ip"), Err(CliError::Usage(Usage::ShowIp))));
    assert!(matches!(run(&mut ctx, "show ntp peers"), Err(CliError::Usage(Usage::ShowNtp))));
    assert!(matches!(run(&mut ctx, "show bogus"), Ok(Outcome::Notice(Notice::InvalidShow(ref x))) if x == "bogus"));
    assert!(matches!(run(&mut ctx, "show"), Ok(Outcome::Notice(Notice::MissingShowParameter))));
    match run(&mut ctx, "show running-config") {
        Ok(Outcome::Print(lines)) => {
            assert_eq!(lines.len(), 5);
            assert_eq!(lines[0], "Building configuration...");
            assert_eq!(lines[4], get_running_config(&ctx));
        }
        _ => panic!("expected the running configuration"),
    }
}

#[test]
fn show_sessions_only_in_user_mode() {
    let mut ctx = in_mode(Mode::UserMode);
    assert_eq!(call_text(&plan(run(&mut ctx, "show sessions")), 0), "sudo w");
    assert_eq!(call_text(&plan(run(&mut ctx, "show controllers")), 0), "sudo lshw -class network");
    let mut ctx = in_mode(Mode::PrivilegedMode);
    assert!(matches!(run(&mut ctx, "show sessions"), Err(CliError::ModeMismatch { .. })));
}

#[test]
fn show_clock_with_clock_present() {
    let mut ctx = in_mode(Mode::UserMode);
    let with_clock = Env { interfaces: Vec::new(), clock_available: true, interface_error: None };
    assert!(matches!(execute(&mut ctx, "show clock", &with_clock), Ok(Outcome::ShowClock)));
    assert!(matches!(execute(&mut ctx, "show uptime", &with_clock), Ok(Outcome::ShowUptime)));
}

#[test]
fn do_show_from_config_mode() {
    let mut ctx = in_mode(Mode::InterfaceMode);
    assert_eq!(call_text(&plan(run(&mut ctx, "do show ip interface brief")), 0), "ip a");
    assert!(matches!(run(&mut ctx, "do"), Ok(Outcome::Notice(Notice::MissingDoParameter))));
    assert!(matches!(run(&mut ctx, "do ping"), Ok(Outcome::Notice(Notice::InvalidDo(ref x))) if x == "ping"));
    assert_eq!(ctx.current_mode, Mode::InterfaceMode);
}

#[test]
fn write_and_copy_render_running_config() {
    let mut ctx = in_mode(Mode::PrivilegedMode);
    let text = get_running_config(&ctx);
    assert!(matches!(run(&mut ctx, "write memory"), Ok(Outcome::SaveStartup(ref t)) if *t == text));
    assert!(matches!(run(&mut ctx, "write"), Err(CliError::Usage(Usage::Write))));
    assert!(matches!(run(&mut ctx, "copy running-config startup-config"), Ok(Outcome::SaveStartup(_))));
    match run(&mut ctx, "copy running-config backup.cfg") {
        Ok(Outcome::CopyTo { path, text: t }) => {
            assert_eq!(path, "backup.cfg");
            assert_eq!(t, text);
        }
        _ => panic!("expected a copy"),
    }
    assert!(matches!(run(&mut ctx, "copy running-config"), Err(CliError::Usage(Usage::Copy))));
}

#[test]
fn running_config_of_fresh_session() {
    let ctx = CliContext::new("Router".to_string());
    let expected = "version 15.1\nno service timestamps log datetime msec\nno service password-encryption\n!\nhostname Router\n!\nenable password 5 \nenable secret 5 \n!\ninterface FastEthernet0/1\n ip address no ip address\n duplex auto\n speed auto\n shutdown\n!\ninterface Vlan1\n no ip address\n shutdown\n!\nip classes\n\n!\nrouter ospf \n log-adjacency-changes\n passive-interface \n \n!\n\n!\n!\nend\n";
    assert_eq!(get_running_config(&ctx), expected);
}

#[test]
fn service_password_encryption_sets_flag() {
    let mut ctx = in_mode(Mode::ConfigMode);
    assert!(run(&mut ctx, "service password-encryption").is_ok());
    assert!(ctx.config.password_encryption);
    assert!(get_running_config(&ctx).contains("\nservice password-encryption\n"));
    assert!(matches!(run(&mut ctx, "service"), Err(CliError::Usage(Usage::Service))));
}

#[test]
fn help_lists_commands_of_mode() {
    let ctx = in_mode(Mode::InterfaceMode);
    let lines = help_command(&ctx);
    assert_eq!(lines.len(), 14 + 9);
    assert_eq!(lines[14], "exit              - Exit to config mode");
    let mut ctx = in_mode(Mode::UserMode);
    assert!(matches!(run(&mut ctx, "help"), Ok(Outcome::Print(ref l)) if l.len() == 14 + 11));
}

#[test]
fn clock_set_without_clock() {
    let mut ctx = in_mode(Mode::PrivilegedMode);
    assert!(matches!(run(&mut ctx, "clock set 10:00:00 1 May 2024"), Err(CliError::ClockUnavailable)));
    assert!(matches!(run(&mut ctx, "clock set"), Err(CliError::Usage(Usage::ClockSet))));
    let with_clock = Env { interfaces: Vec::new(), clock_available: true, interface_error: None };
    match execute(&mut ctx, "clock set 10:00:00 1 May 2024", &with_clock) {
        Ok(Outcome::SetClock(words)) => assert_eq!(words, vec!["10:00:00", "1", "May", "2024"]),
        _ => panic!("expected a clock setting"),
    }
}

#[test]
fn confirmations() {
    assert!(matches!(confirm_reply(Confirmation::Reload, "  YES "), Ok(Outcome::Run(_))));
    assert!(matches!(confirm_reply(Confirmation::Reload, ""), Ok(Outcome::Run(_))));
    assert!(matches!(confirm_reply(Confirmation::Reload, "n"), Ok(Outcome::Notice(Notice::ReloadAborted))));
    assert!(matches!(confirm_reply(Confirmation::PowerOff, "y"), Ok(Outcome::PowerOff)));
    assert!(matches!(confirm_reply(Confirmation::DebugAll, "Yes"), Ok(Outcome::Notice(Notice::DebuggingOn))));
    assert!(matches!(confirm_reply(Confirmation::DebugAll, "NO"), Ok(Outcome::Notice(Notice::DebugDeclined))));
    assert!(matches!(confirm_reply(Confirmation::Reload, "maybe"), Err(CliError::InvalidAnswer)));
    assert!(matches!(confirm_reply(Confirmation::Reload, "yes please"), Err(CliError::InvalidAnswer)));
    match confirm_reply(Confirmation::Reload, "yes") {
        Ok(Outcome::Run(p)) => assert_eq!(call_text(&p, 0), "sudo reboot"),
        _ => panic!("expected a reboot"),
    }
}

#[test]
fn reload_poweroff_debug_ask_first() {
    let mut ctx = in_mode(Mode::PrivilegedMode);
    assert!(matches!(run(&mut ctx, "reload"), Ok(Outcome::Confirm(Confirmation::Reload))));
    assert!(matches!(run(&mut ctx, "poweroff"), Ok(Outcome::Confirm(Confirmation::PowerOff))));
    assert!(matches!(run(&mut ctx, "debug all"), Ok(Outcome::Confirm(Confirmation::DebugAll))));
    assert!(matches!(run(&mut ctx, "debug"), Err(CliError::Usage(Usage::Debug))));
    assert!(matches!(run(&mut ctx, "undebug all"), Ok(Outcome::Notice(Notice::DebuggingOff))));
    assert!(matches!(run(&mut ctx, "undebug x"), Err(CliError::Usage(Usage::Undebug))));
}

#[test]
fn ssh_connect_ping_traceroute() {
    let mut ctx = in_mode(Mode::PrivilegedMode);
    match run(&mut ctx, "ssh -l admin@192.168.1.1") {
        Ok(Outcome::Connect { user, host }) => {
            assert_eq!(user, "admin");
            assert_eq!(host, "192.168.1.1");
        }
        _ => panic!("expected a connection"),
    }
    assert!(matches!(run(&mut ctx, "ssh -l admin"), Ok(Outcome::Notice(Notice::SshLoginFormat))));
    assert!(matches!(run(&mut ctx, "ssh -l"), Ok(Outcome::Notice(Notice::SshLoginUsage))));
    assert!(matches!(run(&mut ctx, "ssh -v"), Ok(Outcome::Notice(Notice::SshVersion))));
    assert!(matches!(run(&mut ctx, "ssh --help"), Ok(Outcome::Notice(Notice::SshHelp))));
    assert!(matches!(run(&mut ctx, "ssh -x"), Ok(Outcome::Notice(Notice::InvalidSshOption(_)))));
    assert!(matches!(run(&mut ctx, "ssh"), Ok(Outcome::Notice(Notice::SshMissing))));
    match run(&mut ctx, "connect crypto") {
        Ok(Outcome::Connect { user, host }) => {
            assert_eq!(user, "pnfcli");
            assert_eq!(host, "192.168.253.147");
        }
        _ => panic!("expected a connection"),
    }
    assert!(matches!(run(&mut ctx, "connect"), Err(CliError::Usage(Usage::Connect))));
    let p = plan(run(&mut ctx, "ping 8.8.8.8"));
    assert_eq!(call_text(&p, 0), "ping -c 4 -s 32 8.8.8.8");
    assert_eq!(p.before, vec!["Pinging 8.8.8.8 with 32 bytes of data:".to_string()]);
    assert!(p.after.is_empty());
    let p = plan(run(&mut ctx, "traceroute example.org"));
    assert_eq!(call_text(&p, 0), "traceroute -n -m 30 example.org");
    assert_eq!(p.before, vec!["Tracing route to example.org over a maximum of 30 hops".to_string()]);
    assert_eq!(p.after, vec!["Trace Completed.".to_string()]);
    assert!(matches!(run(&mut ctx, "ping"), Err(CliError::Usage(Usage::Ping))));
    assert!(matches!(run(&mut ctx, "traceroute a b"), Err(CliError::Usage(Usage::Traceroute))));
    assert!(matches!(run(&mut ctx, "ifconfig eth0"), Ok(Outcome::Ifconfig(Some(ref n))) if n == "eth0"));
    assert!(matches!(run(&mut ctx, "ifconfig"), Ok(Outcome::Ifconfig(None))));
}

#[test]
fn registry_and_lookup() {
    let registry = build_command_registry();
    assert_eq!(registry.len(), 27);
    for c in registry.iter() {
        assert_eq!(lookup(c.key), Some(c.kind));
    }
    assert_eq!(lookup("configure"), Some(CommandKind::Configure));
    assert_eq!(lookup("conf"), None);
    let show = Command::of(CommandKind::Show);
    assert_eq!(show.name, "show");
    assert_eq!(suggestions_for(&show, 0).unwrap().len(), 13);
    let copy = Command::of(CommandKind::Copy);
    assert_eq!(copy.name, "copy");
    assert_eq!(suggestions_for(&copy, 2), Some(vec!["startup-config"]));
    assert_eq!(suggestions_for(&copy, 3), None);
    assert_eq!(Command::of(CommandKind::Configure).name, "configure terminal");
}
