use pnf_cli::context::{CliContext, Env};
use pnf_cli::dispatch::execute;
use pnf_cli::errors::{AuthFailure, CliError, Usage};
use pnf_cli::mode::Mode;
use pnf_cli::outcome::{AuthRequirement, Credential, Notice, Outcome};

fn env() -> Env {
    Env { interfaces: vec!["lo".to_string(), "eth0".to_string()], clock_available: false, interface_error: None }
}

fn run(ctx: &mut CliContext, line: &str) -> Result<Outcome, CliError> {
    execute(ctx, line, &env())
}

fn privileged() -> CliContext {
    let mut ctx = CliContext::new("Router".to_string());
    assert!(run(&mut ctx, "enable").is_ok());
    ctx
}

fn configuring() -> CliContext {
    let mut ctx = privileged();
    assert!(run(&mut ctx, "configure terminal").is_ok());
    ctx
}

fn with_credentials(password: Option<&str>, secret: Option<&str>) -> CliContext {
    let mut ctx = configuring();
    if let Some(p) = password {
        match run(&mut ctx, &format!("enable password {}", p)) {
            Ok(Outcome::StoreCredential(Credential::Password, clear)) => {
                assert_eq!(clear, p);
                ctx.store_credential(Credential::Password, clear, format!("h({})", p));
            }
            _ => panic!("enable password was not accepted"),
        }
    }
    if let Some(s) = secret {
        match run(&mut ctx, &format!("enable secret {}", s)) {
            Ok(Outcome::StoreCredential(Credential::Secret, clear)) => {
                assert_eq!(clear, s);
                ctx.store_credential(Credential::Secret, clear, format!("h({})", s));
            }
            _ => panic!("enable secret was not accepted"),
        }
    }
    assert!(run(&mut ctx, "exit").is_ok());
    assert!(run(&mut ctx, "exit").is_ok());
    assert_eq!(ctx.current_mode, Mode::UserMode);
    ctx
}

#[test]
fn new_session_starts_in_user_mode() {
    let ctx = CliContext::new("Router".to_string());
    assert_eq!(ctx.current_mode, Mode::UserMode);
    assert_eq!(ctx.prompt, "Router>");
}

#[test]
fn enable_without_credentials_enters_privileged_mode() {
    let mut ctx = CliContext::new("Router".to_string());
    let r = run(&mut ctx, "enable");
    assert!(matches!(r, Ok(Outcome::Notice(Notice::EnteredPrivileged))));
    assert_eq!(ctx.current_mode, Mode::PrivilegedMode);
    assert_eq!(ctx.prompt, "Router#");
}

#[test]
fn enable_with_both_credentials_needs_both() {
    let mut ctx = with_credentials(Some("pw"), Some("sec"));
    let r = run(&mut ctx, "enable");
    assert!(matches!(r, Ok(Outcome::AskCredentials(AuthRequirement::Both))));
    assert_eq!(ctx.current_mode, Mode::UserMode);

    let r = ctx.complete_enable(Some("h(pw)".to_string()), Some("h(wrong)".to_string()));
    assert!(matches!(r, Err(CliError::Auth(AuthFailure::IncorrectPasswordOrSecret))));
    assert_eq!(ctx.current_mode, Mode::UserMode);

    let r = ctx.complete_enable(Some("h(wrong)".to_string()), Some("h(sec)".to_string()));
    assert!(matches!(r, Err(CliError::Auth(AuthFailure::IncorrectPasswordOrSecret))));
    assert_eq!(ctx.current_mode, Mode::UserMode);

    let r = ctx.complete_enable(Some("h(pw)".to_string()), Some("h(sec)".to_string()));
    assert!(matches!(r, Ok(Outcome::Notice(Notice::EnteredPrivileged))));
    assert_eq!(ctx.current_mode, Mode::PrivilegedMode);
    assert_eq!(ctx.prompt, "Router#");
}

#[test]
fn enable_with_password_only() {
    let mut ctx = with_credentials(Some("pw"), None);
    assert!(matches!(run(&mut ctx, "enable"), Ok(Outcome::AskCredentials(AuthRequirement::Password))));
    let r = ctx.complete_enable(Some("h(nope)".to_string()), None);
    assert!(matches!(r, Err(CliError::Auth(AuthFailure::IncorrectPassword))));
    assert_eq!(ctx.current_mode, Mode::UserMode);
    assert!(ctx.complete_enable(Some("h(pw)".to_string()), None).is_ok());
    assert_eq!(ctx.current_mode, Mode::PrivilegedMode);
}

#[test]
fn enable_with_secret_only() {
    let mut ctx = with_credentials(None, Some("sec"));
    assert!(matches!(run(&mut ctx, "enable"), Ok(Outcome::AskCredentials(AuthRequirement::Secret))));
    let r = ctx.complete_enable(None, None);
    assert!(matches!(r, Err(CliError::Auth(AuthFailure::IncorrectSecret))));
    assert!(ctx.complete_enable(None, Some("h(sec)".to_string())).is_ok());
    assert_eq!(ctx.current_mode, Mode::PrivilegedMode);
}

#[test]
fn credentials_are_stored_hashed_and_echoed() {
    let ctx = with_credentials(Some("pw"), Some("sec"));
    assert_eq!(ctx.config.enable_password.as_deref(), Some("pw"));
    assert_eq!(ctx.config.password_hash.as_deref(), Some("h(pw)"));
    assert_eq!(ctx.config.enable_secret.as_deref(), Some("sec"));
    assert_eq!(ctx.config.secret_hash.as_deref(), Some("h(sec)"));
}

#[test]
fn enable_password_needs_one_argument() {
    let mut ctx = configuring();
    let r = run(&mut ctx, "enable password");
    assert!(matches!(r, Err(CliError::Usage(Usage::EnablePassword))));
    let r = run(&mut ctx, "enable secret a b");
    assert!(matches!(r, Err(CliError::Usage(Usage::EnableSecret))));
    assert!(ctx.config.password_hash.is_none());
}

#[test]
fn enable_password_outside_config_mode_is_a_mode_error() {
    let mut ctx = privileged();
    let before = ctx.clone();
    let r = run(&mut ctx, "enable password pw");
    match r {
        Err(CliError::ModeMismatch { permitted, .. }) => {
            assert!(permitted.config);
            assert!(!permitted.privileged);
        }
        _ => panic!("expected a mode error"),
    }
    assert_eq!(format!("{:?}", ctx), format!("{:?}", before));
}

#[test]
fn interface_eth0_from_config_selects_it() {
    let mut ctx = configuring();
    let r = run(&mut ctx, "interface eth0");
    assert!(matches!(r, Ok(Outcome::Notice(Notice::EnteredInterface(ref n))) if n == "eth0"));
    assert_eq!(ctx.current_mode, Mode::InterfaceMode);
    assert_eq!(ctx.selected_interface.as_deref(), Some("eth0"));
    assert_eq!(ctx.prompt, "Router(config-if)#");
}

#[test]
fn interface_unknown_name_reports_available_set() {
    let mut ctx = configuring();
    let r = run(&mut ctx, "interface eth9");
    match r {
        Err(CliError::UnknownInterface { name, available }) => {
            assert_eq!(name, "eth9");
            assert_eq!(available, vec!["lo".to_string(), "eth0".to_string()]);
        }
        _ => panic!("expected an unknown interface"),
    }
    assert_eq!(ctx.current_mode, Mode::ConfigMode);
    assert!(ctx.selected_interface.is_none());
}

#[test]
fn interface_without_name_lists_interfaces() {
    let mut ctx = configuring();
    assert!(matches!(run(&mut ctx, "interface"), Err(CliError::MissingInterface { .. })));
    assert!(matches!(run(&mut ctx, "interface a b"), Err(CliError::Usage(Usage::Interface))));
}

#[test]
fn interface_reports_unreadable_interface_list() {
    let mut ctx = configuring();
    let broken = Env {
        interfaces: Vec::new(),
        clock_available: false,
        interface_error: Some("Failed to read network interfaces: denied".to_string()),
    };
    let r = execute(&mut ctx, "interface eth0", &broken);
    assert!(matches!(r, Err(CliError::Collaborator(ref e)) if e == "Failed to read network interfaces: denied"));
    assert_eq!(ctx.current_mode, Mode::ConfigMode);
}

#[test]
fn interface_reselect_from_interface_mode() {
    let mut ctx = configuring();
    assert!(run(&mut ctx, "interface eth0").is_ok());
    assert!(run(&mut ctx, "interface lo").is_ok());
    assert_eq!(ctx.current_mode, Mode::InterfaceMode);
    assert_eq!(ctx.selected_interface.as_deref(), Some("lo"));
}

#[test]
fn exit_from_privileged_then_user_errors() {
    let mut ctx = privileged();
    let r = run(&mut ctx, "exit");
    assert!(matches!(r, Ok(Outcome::Notice(Notice::ExitedPrivileged))));
    assert_eq!(ctx.current_mode, Mode::UserMode);
    assert_eq!(ctx.prompt, "Router>");
    let before = format!("{:?}", ctx);
    let r = run(&mut ctx, "exit");
    match r {
        Err(e) => {
            assert!(matches!(e, CliError::NoModeToExit));
            assert_eq!(e.message(), "No mode to exit.");
        }
        Ok(_) => panic!("exit from user mode must fail"),
    }
    assert_eq!(ctx.current_mode, Mode::UserMode);
    assert_eq!(format!("{:?}", ctx), before);
}

#[test]
fn exit_walks_down_one_mode_at_a_time() {
    let mut ctx = configuring();
    assert!(run(&mut ctx, "interface eth0").is_ok());
    assert!(matches!(run(&mut ctx, "exit"), Ok(Outcome::Notice(Notice::ExitedInterface))));
    assert_eq!(ctx.current_mode, Mode::ConfigMode);
    assert_eq!(ctx.prompt, "Router(config)#");
    assert!(matches!(run(&mut ctx, "exit"), Ok(Outcome::Notice(Notice::ExitedConfig))));
    assert_eq!(ctx.current_mode, Mode::PrivilegedMode);
    assert!(matches!(run(&mut ctx, "exit ssh"), Ok(Outcome::EndSshSession)));
    assert!(matches!(run(&mut ctx, "exit now please"), Err(CliError::Usage(Usage::Exit))));
}

#[test]
fn disable_returns_to_user_mode() {
    let mut ctx = privileged();
    assert!(run(&mut ctx, "disable").is_ok());
    assert_eq!(ctx.current_mode, Mode::UserMode);
    assert!(matches!(run(&mut ctx, "disable"), Err(CliError::ModeMismatch { .. })));
}

#[test]
fn commands_outside_their_modes_change_nothing() {
    let lines = [
        "configure terminal",
        "hostname core",
        "ntp master",
        "service password-encryption",
        "shutdown",
        "debug all",
        "clock set 10:00:00 1 January 2024",
        "show running-config",
        "copy running-config startup-config",
        "no ntp server 10.0.0.1",
    ];
    for line in lines.iter() {
        let mut ctx = CliContext::new("Router".to_string());
        let before = format!("{:?}", ctx);
        let r = run(&mut ctx, line);
        assert!(matches!(r, Err(CliError::ModeMismatch { .. })), "{}", line);
        assert_eq!(format!("{:?}", ctx), before, "{}", line);
    }
}

#[test]
fn show_is_refused_in_config_mode() {
    let mut ctx = configuring();
    match run(&mut ctx, "show version") {
        Err(CliError::ModeMismatch { permitted, .. }) => {
            assert!(permitted.user && permitted.privileged && !permitted.config);
        }
        _ => panic!("expected a mode error"),
    }
    assert!(matches!(run(&mut ctx, "do show version"), Ok(Outcome::Notice(Notice::Version))));
}

#[test]
fn hostname_changes_prompt() {
    let mut ctx = configuring();
    let r = run(&mut ctx, "hostname core1");
    assert!(matches!(r, Ok(Outcome::Notice(Notice::HostnameChanged(ref h))) if h == "core1"));
    assert_eq!(ctx.config.hostname, "core1");
    assert_eq!(ctx.prompt, "core1(config)#");
    assert!(matches!(run(&mut ctx, "hostname"), Err(CliError::Usage(Usage::Hostname))));
}

#[test]
fn unknown_command_and_blank_line() {
    let mut ctx = CliContext::new("Router".to_string());
    assert!(matches!(run(&mut ctx, "frobnicate"), Err(CliError::UnknownCommand(ref t)) if t == "frobnicate"));
    assert!(matches!(run(&mut ctx, "   "), Ok(Outcome::Nothing)));
}

#[test]
fn configure_needs_terminal() {
    let mut ctx = privileged();
    assert!(matches!(run(&mut ctx, "configure"), Err(CliError::Usage(Usage::Configure))));
    assert_eq!(ctx.current_mode, Mode::PrivilegedMode);
}
