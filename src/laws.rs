use vstd::prelude::*;

use crate::clicommands::CommandKind;
use crate::context::{enable_completed, hash_matches, CliContext, Env};
use crate::dispatch::{dispatch_post, mode_error, permitted};
use crate::errors::{AuthFailure, CliError};
use crate::mode::Mode;
use crate::ntp::toggled_authentication;
use crate::outcome::{Notice, Outcome};
use crate::text::views;

verus! {

/// A command run in a mode outside its permitted set fails with a mode error that names
/// the permitted modes, and leaves the session as it was.
pub proof fn mode_gate(
    k: CommandKind,
    old: CliContext,
    a: Seq<Seq<char>>,
    env: Env,
    new: CliContext,
    r: Result<Outcome, CliError>,
)
    requires
        dispatch_post(k, old, a, env, new, r),
        !permitted(k, a).has(old.current_mode),
    ensures
        new == old,
        r == mode_error(k, a),
        r matches Err(CliError::ModeMismatch { command, permitted: p }) && command == k && p
            == permitted(k, a),
{
}

/// `enable` in user mode with no password and no secret stored enters privileged mode at
/// once, without asking for anything.
pub proof fn enable_without_credentials(
    old: CliContext,
    env: Env,
    new: CliContext,
    r: Result<Outcome, CliError>,
)
    requires
        old.current_mode == Mode::UserMode,
        old.config.password_hash is None,
        old.config.secret_hash is None,
        dispatch_post(CommandKind::Enable, old, Seq::empty(), env, new, r),
    ensures
        new.current_mode == Mode::PrivilegedMode,
        r == Ok::<Outcome, CliError>(Outcome::Notice(Notice::EnteredPrivileged)),
{
}

/// With both a password and a secret stored, `enable` succeeds exactly when both supplied
/// hashes match the stored ones; any mismatch gives the one combined error and the session
/// stays in user mode.
pub proof fn enable_with_both(
    old: CliContext,
    password: Option<String>,
    secret: Option<String>,
    new: CliContext,
    r: Result<Outcome, CliError>,
)
    requires
        old.current_mode == Mode::UserMode,
        old.config.password_hash is Some,
        old.config.secret_hash is Some,
        enable_completed(old, password, secret, new, r),
    ensures
        r is Ok <==> hash_matches(password, old.config.password_hash) && hash_matches(
            secret,
            old.config.secret_hash,
        ),
        r is Ok ==> new.current_mode == Mode::PrivilegedMode,
        r is Err ==> r == Err::<Outcome, CliError>(
            CliError::Auth(AuthFailure::IncorrectPasswordOrSecret),
        ) && new == old && new.current_mode == Mode::UserMode,
{
}

/// `interface <name>` from global configuration succeeds exactly when the system has an
/// interface of that name; then the session is in interface mode with that interface
/// selected, and otherwise the mode is unchanged and the error lists the names there are.
pub proof fn interface_selection(
    old: CliContext,
    name: Seq<char>,
    env: Env,
    new: CliContext,
    r: Result<Outcome, CliError>,
)
    requires
        old.current_mode == Mode::ConfigMode,
        env.interface_error is None,
        dispatch_post(CommandKind::Interface, old, seq![name], env, new, r),
    ensures
        r is Ok <==> views(env.interfaces@).contains(name),
        r is Ok ==> new.current_mode == Mode::InterfaceMode && (new.selected_interface matches Some(
            s,
        ) && s@ == name),
        r is Err ==> new == old && (r matches Err(CliError::UnknownInterface { name: n, available })
            && n@ == name && views(available@) == views(env.interfaces@)),
{
}

/// Switching NTP authentication twice gives back the session it started from.
pub proof fn authentication_toggle_twice(s: CliContext)
    ensures
        toggled_authentication(toggled_authentication(s)) == s,
{
}

/// `ntp authenticate` run twice in global configuration returns authentication, and the
/// whole session, to where it was.
pub proof fn ntp_authenticate_twice(
    s0: CliContext,
    env: Env,
    s1: CliContext,
    r1: Result<Outcome, CliError>,
    s2: CliContext,
    r2: Result<Outcome, CliError>,
)
    requires
        s0.current_mode == Mode::ConfigMode,
        dispatch_post(CommandKind::Ntp, s0, seq!["authenticate"@], env, s1, r1),
        dispatch_post(CommandKind::Ntp, s1, seq!["authenticate"@], env, s2, r2),
    ensures
        s1.ntp_authentication_enabled == !s0.ntp_authentication_enabled,
        s2.ntp_authentication_enabled == s0.ntp_authentication_enabled,
        s2 == s0,
        r1 is Ok && r2 is Ok,
{
    reveal_strlit("authenticate");
    reveal_strlit("server");
    reveal_strlit("source");
    reveal_strlit("master");
    assert("authenticate"@[0] != "server"@[0]);
    assert("authenticate"@[0] != "source"@[0]);
    assert("authenticate"@ != "server"@);
    assert("authenticate"@ != "source"@);
    assert("authenticate"@ != "master"@);
    authentication_toggle_twice(s0);
}

/// From privileged mode one `exit` reaches user mode; a further `exit` there fails because
/// there is no mode to exit, and changes nothing.
pub proof fn exit_to_user(
    s0: CliContext,
    env: Env,
    s1: CliContext,
    r1: Result<Outcome, CliError>,
    s2: CliContext,
    r2: Result<Outcome, CliError>,
)
    requires
        s0.current_mode == Mode::PrivilegedMode,
        dispatch_post(CommandKind::Exit, s0, Seq::empty(), env, s1, r1),
        dispatch_post(CommandKind::Exit, s1, Seq::empty(), env, s2, r2),
    ensures
        r1 is Ok,
        s1.current_mode == Mode::UserMode,
        s2 == s1,
        r2 == Err::<Outcome, CliError>(CliError::NoModeToExit),
{
}

} // verus!
