use pnf_cli::context::{CliContext, Env};
use pnf_cli::dispatch::execute;
use pnf_cli::errors::{CliError, Usage};
use pnf_cli::ntp::parse_key_number;
use pnf_cli::outcome::{Notice, Outcome};
use pnf_cli::show_c::{show_ntp, show_ntp_asso};

fn env() -> Env {
    Env { interfaces: vec!["eth0".to_string()], clock_available: false, interface_error: None }
}

fn run(ctx: &mut CliContext, line: &str) -> Result<Outcome, CliError> {
    execute(ctx, line, &env())
}

fn configuring() -> CliContext {
    let mut ctx = CliContext::new("Router".to_string());
    assert!(run(&mut ctx, "enable").is_ok());
    assert!(run(&mut ctx, "configure terminal").is_ok());
    ctx
}

fn printed(r: Result<Outcome, CliError>) -> Vec<String> {
    match r {
        Ok(Outcome::Print(lines)) => lines,
        _ => panic!("expected printed lines"),
    }
}

const ASSOCIATION_HEADER: &str =
    "address         ref clock       st   when     poll    reach  delay          offset            disp";
const ASSOCIATION_LEGEND: &str =
    " * sys.peer, # selected, + candidate, - outlyer, x falseticker, ~ configured";

#[test]
fn ntp_server_then_show_associations_then_remove() {
    let mut ctx = configuring();
    let r = run(&mut ctx, "ntp server 10.0.0.1");
    assert!(matches!(r, Ok(Outcome::Notice(Notice::NtpServerAdded(ref a))) if a == "10.0.0.1"));
    assert!(run(&mut ctx, "exit").is_ok());

    let lines = printed(run(&mut ctx, "show ntp associations"));
    assert_eq!(lines.len(), 3);
    assert_eq!(lines[0], ASSOCIATION_HEADER);
    assert_eq!(
        lines[1],
        " ~10.0.0.1       .INIT.          16   -        64      0      0.00           0.00              0.01"
    );
    assert_eq!(lines[2], ASSOCIATION_LEGEND);
    assert_eq!(ctx.ntp_associations.len(), 1);
    assert_eq!(ctx.ntp_associations[0].address, "10.0.0.1");
    assert_eq!(ctx.ntp_associations[0].st, 16);
    assert_eq!(ctx.ntp_associations[0].reach, 0);
    assert_eq!(ctx.ntp_associations[0].when, "-");

    assert!(run(&mut ctx, "configure terminal").is_ok());
    let r = run(&mut ctx, "no ntp server 10.0.0.1");
    assert!(matches!(r, Ok(Outcome::Notice(Notice::NtpServerRemoved(ref a))) if a == "10.0.0.1"));
    assert!(run(&mut ctx, "exit").is_ok());
    let lines = printed(run(&mut ctx, "show ntp associations"));
    assert_eq!(lines, vec!["No NTP associations configured.".to_string()]);
    assert!(ctx.ntp_servers.is_empty());
}

#[test]
fn ntp_server_twice_keeps_one_entry() {
    let mut ctx = configuring();
    assert!(run(&mut ctx, "ntp server 10.0.0.1").is_ok());
    assert!(run(&mut ctx, "ntp server 10.0.0.1").is_ok());
    assert_eq!(ctx.ntp_servers, vec!["10.0.0.1".to_string()]);
    assert_eq!(ctx.ntp_associations.len(), 1);
}

#[test]
fn ntp_server_rejects_malformed_addresses() {
    let mut ctx = configuring();
    for bad in ["10.0.0", "256.1.1.1", "10.0.0.01", "a.b.c.d", "10.0.0.1.5"].iter() {
        let r = run(&mut ctx, &format!("ntp server {}", bad));
        assert!(matches!(r, Err(CliError::InvalidAddress(ref x)) if x == bad), "{}", bad);
    }
    assert!(ctx.ntp_servers.is_empty());
    assert!(matches!(run(&mut ctx, "ntp server"), Err(CliError::Usage(Usage::NtpServer))));
}

#[test]
fn no_ntp_server_unknown_address() {
    let mut ctx = configuring();
    let r = run(&mut ctx, "no ntp server 10.9.9.9");
    assert!(matches!(r, Err(CliError::NtpServerNotFound(ref a)) if a == "10.9.9.9"));
}

#[test]
fn ntp_authenticate_twice_restores_state() {
    let mut ctx = configuring();
    let start = format!("{:?}", ctx);
    let r = run(&mut ctx, "ntp authenticate");
    assert!(matches!(r, Ok(Outcome::Notice(Notice::NtpAuthentication(true)))));
    assert!(ctx.ntp_authentication_enabled);
    let r = run(&mut ctx, "ntp authenticate");
    assert!(matches!(r, Ok(Outcome::Notice(Notice::NtpAuthentication(false)))));
    assert!(!ctx.ntp_authentication_enabled);
    assert_eq!(format!("{:?}", ctx), start);
}

#[test]
fn ntp_authentication_key_requires_md5_and_positive_number() {
    let mut ctx = configuring();
    assert!(matches!(
        run(&mut ctx, "ntp authentication-key 1 sha1 k"),
        Err(CliError::Usage(Usage::NtpAuthenticationKey))
    ));
    assert!(matches!(
        run(&mut ctx, "ntp authentication-key 0 md5 k"),
        Err(CliError::InvalidKeyNumber(ref x)) if x == "0"
    ));
    assert!(matches!(
        run(&mut ctx, "ntp authentication-key x md5 k"),
        Err(CliError::InvalidKeyNumber(_))
    ));
    assert!(run(&mut ctx, "ntp authentication-key 7 md5 abc").is_ok());
    assert!(run(&mut ctx, "ntp authentication-key 7 md5 xyz").is_ok());
    assert_eq!(ctx.ntp_authentication_keys, vec![(7u32, "xyz".to_string())]);
}

#[test]
fn ntp_trusted_key_is_a_set() {
    let mut ctx = configuring();
    assert!(matches!(run(&mut ctx, "ntp trusted-key 5"), Ok(Outcome::Notice(Notice::NtpTrustedKey(5)))));
    assert!(run(&mut ctx, "ntp trusted-key 5").is_ok());
    assert!(run(&mut ctx, "ntp trusted-key 9").is_ok());
    assert_eq!(ctx.ntp_trusted_keys, vec![5, 9]);
    assert!(matches!(run(&mut ctx, "ntp trusted-key -1"), Err(CliError::InvalidKeyNumber(_))));
    assert!(matches!(run(&mut ctx, "ntp trusted-key"), Err(CliError::Usage(Usage::NtpTrustedKey))));
}

#[test]
fn ntp_source_master_and_unknown_subcommand() {
    let mut ctx = configuring();
    assert!(run(&mut ctx, "ntp source eth0").is_ok());
    assert_eq!(ctx.ntp_source_interface.as_deref(), Some("eth0"));
    assert!(run(&mut ctx, "ntp master").is_ok());
    assert!(ctx.ntp_master);
    assert!(matches!(run(&mut ctx, "ntp peer 1.2.3.4"), Err(CliError::Usage(Usage::Ntp))));
    assert!(matches!(run(&mut ctx, "ntp"), Err(CliError::Usage(Usage::Ntp))));
}

#[test]
fn show_ntp_lists_settings() {
    let mut ctx = configuring();
    assert!(run(&mut ctx, "ntp master").is_ok());
    assert!(run(&mut ctx, "ntp authentication-key 3 md5 k3").is_ok());
    assert!(run(&mut ctx, "ntp trusted-key 3").is_ok());
    let lines = show_ntp(&ctx);
    assert_eq!(
        lines,
        vec![
            "NTP Master: Enabled".to_string(),
            "NTP Authentication: Disabled".to_string(),
            "NTP Authentication Keys:".to_string(),
            "Key 3: k3".to_string(),
            "NTP Trusted Keys:".to_string(),
            "Trusted Key 3".to_string(),
        ]
    );
    let fresh = CliContext::new("R".to_string());
    assert_eq!(show_ntp(&fresh).len(), 2);
    assert_eq!(show_ntp_asso(&fresh), vec!["No NTP associations configured.".to_string()]);
}

#[test]
fn clear_ntp_associations_keeps_servers() {
    let mut ctx = configuring();
    assert!(run(&mut ctx, "ntp server 10.0.0.2").is_ok());
    assert!(run(&mut ctx, "exit").is_ok());
    assert!(matches!(
        run(&mut ctx, "clear ntp associations"),
        Ok(Outcome::Notice(Notice::NtpAssociationsCleared))
    ));
    assert!(ctx.ntp_associations.is_empty());
    assert_eq!(ctx.ntp_servers.len(), 1);
    assert!(matches!(run(&mut ctx, "clear ntp"), Err(CliError::Usage(Usage::Clear))));
    assert!(matches!(run(&mut ctx, "clear"), Ok(Outcome::ClearScreen)));
}

#[test]
fn key_numbers() {
    assert_eq!(parse_key_number("1"), Some(1));
    assert_eq!(parse_key_number("+42"), Some(42));
    assert_eq!(parse_key_number("4294967295"), Some(4294967295));
    assert_eq!(parse_key_number("4294967296"), None);
    assert_eq!(parse_key_number("0"), None);
    assert_eq!(parse_key_number(""), None);
    assert_eq!(parse_key_number("+"), None);
    assert_eq!(parse_key_number("12a"), None);
}
