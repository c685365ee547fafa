use vstd::prelude::*;

use crate::clicommands::{command_named, lookup, CommandKind};
use crate::context::{addresses, moved, requirement_of, CliConfig, CliContext, Env};
use crate::ip_cmds::{ip, ip_result, no, no_post, sets_link, shutdown};
use crate::ntp::{ntp, ntp_post};
use crate::run_config::{get_running_config, help_command, help_text, running_config_text};
use crate::show_c::{
    associations_text, ntp_status_text, run_conf_text, show_clock, show_controllers,
    show_interfaces, show_ip_int_br, show_ip_route, show_login, show_ntp, show_ntp_asso,
    show_proc, show_run_conf, show_sessions, show_uptime,
};
use crate::errors::{CliError, Usage};
use crate::mode::{every_mode, modes, prompt_of, render_prompt, Mode, ModeSet};
use crate::outcome::{Confirmation, Credential, Notice, Outcome, ProcessCall, RunPlan};
use crate::text::{spells, spells_word, split_once_char, str_eq, tokenize, tokens_of, views};

verus! {

/// The modes in which each `show` subcommand runs.
pub open spec fn show_permitted(a: Seq<Seq<char>>) -> ModeSet {
    if a.len() == 0 {
        modes(true, true, false, false)
    } else if a[0] == "sessions"@ || a[0] == "controllers"@ {
        modes(true, false, false, false)
    } else if a[0] == "running-config"@ || a[0] == "startup-config"@ || a[0] == "interfaces"@
        || a[0] == "login"@ || a[0] == "ntp"@ || a[0] == "processes"@ {
        modes(false, true, false, false)
    } else {
        modes(true, true, false, false)
    }
}

/// The modes in which command `k` with arguments `a` may run.
pub open spec fn permitted(k: CommandKind, a: Seq<Seq<char>>) -> ModeSet {
    match k {
        CommandKind::Enable => if a.len() == 0 {
            modes(true, false, false, false)
        } else if a[0] == "password"@ || a[0] == "secret"@ {
            modes(false, false, true, false)
        } else {
            every_mode()
        },
        CommandKind::Configure => modes(false, true, false, false),
        CommandKind::Interface => modes(false, false, true, true),
        CommandKind::Disable => if a.len() == 0 {
            modes(false, true, false, false)
        } else {
            every_mode()
        },
        CommandKind::Debug => modes(false, true, false, false),
        CommandKind::Undebug => modes(false, true, false, false),
        CommandKind::Clock => modes(false, true, false, false),
        CommandKind::Ssh => modes(false, true, false, false),
        CommandKind::Hostname => modes(false, false, true, false),
        CommandKind::Ntp => modes(false, false, true, false),
        CommandKind::Service => modes(false, false, true, false),
        CommandKind::Show => show_permitted(a),
        CommandKind::Write => modes(true, true, true, false),
        CommandKind::Copy => modes(false, true, true, false),
        CommandKind::Ip => if a.len() == 3 && a[0] == "address"@ {
            modes(false, false, false, true)
        } else if a.len() >= 1 && a[0] == "route"@ {
            modes(false, false, true, false)
        } else {
            every_mode()
        },
        CommandKind::Shutdown => modes(false, false, false, true),
        CommandKind::No => if a.len() == 1 && a[0] == "shutdown"@ {
            modes(false, false, false, true)
        } else if a.len() == 3 && a[0] == "ntp"@ && a[1] == "server"@ {
            modes(false, false, true, false)
        } else if a.len() >= 2 && a[0] == "ip"@ && a[1] == "route"@ {
            modes(false, false, true, false)
        } else if a.len() >= 2 && a[0] == "ip"@ && a[1] == "address"@ {
            modes(false, false, false, true)
        } else {
            every_mode()
        },
        CommandKind::Clear => if a.len() >= 1 && a[0] == "ntp"@ {
            modes(false, true, false, false)
        } else {
            every_mode()
        },
        _ => every_mode(),
    }
}

fn mode_set(user: bool, privileged: bool, config: bool, interface: bool) -> (r: ModeSet)
    ensures
        r == modes(user, privileged, config, interface),
{
    ModeSet { user, privileged, config, interface }
}

pub fn arg_is(args: &Vec<String>, i: usize, word: &str) -> (r: bool)
    ensures
        r == (i < args@.len() && views(args@)[i as int] == word@),
{
    if i < args.len() {
        str_eq(args[i].as_str(), word)
    } else {
        false
    }
}

/// Computes the modes in which command `k` with arguments `args` may run.
pub fn permitted_modes(k: CommandKind, args: &Vec<String>) -> (r: ModeSet)
    ensures
        r == permitted(k, views(args@)),
{
    let n = args.len();
    match k {
        CommandKind::Enable => if n == 0 {
            mode_set(true, false, false, false)
        } else if arg_is(args, 0, "password") || arg_is(args, 0, "secret") {
            mode_set(false, false, true, false)
        } else {
            mode_set(true, true, true, true)
        },
        CommandKind::Configure => mode_set(false, true, false, false),
        CommandKind::Interface => mode_set(false, false, true, true),
        CommandKind::Disable => if n == 0 {
            mode_set(false, true, false, false)
        } else {
            mode_set(true, true, true, true)
        },
        CommandKind::Debug => mode_set(false, true, false, false),
        CommandKind::Undebug => mode_set(false, true, false, false),
        CommandKind::Clock => mode_set(false, true, false, false),
        CommandKind::Ssh => mode_set(false, true, false, false),
        CommandKind::Hostname => mode_set(false, false, true, false),
        CommandKind::Ntp => mode_set(false, false, true, false),
        CommandKind::Service => mode_set(false, false, true, false),
        CommandKind::Show => if n == 0 {
            mode_set(true, true, false, false)
        } else if arg_is(args, 0, "sessions") || arg_is(args, 0, "controllers") {
            mode_set(true, false, false, false)
        } else if arg_is(args, 0, "running-config") || arg_is(args, 0, "startup-config")
            || arg_is(args, 0, "interfaces") || arg_is(args, 0, "login") || arg_is(args, 0, "ntp")
            || arg_is(args, 0, "processes") {
            mode_set(false, true, false, false)
        } else {
            mode_set(true, true, false, false)
        },
        CommandKind::Write => mode_set(true, true, true, false),
        CommandKind::Copy => mode_set(false, true, true, false),
        CommandKind::Ip => if n == 3 && arg_is(args, 0, "address") {
            mode_set(false, false, false, true)
        } else if n >= 1 && arg_is(args, 0, "route") {
            mode_set(false, false, true, false)
        } else {
            mode_set(true, true, true, true)
        },
        CommandKind::Shutdown => mode_set(false, false, false, true),
        CommandKind::No => if n == 1 && arg_is(args, 0, "shutdown") {
            mode_set(false, false, false, true)
        } else if n == 3 && arg_is(args, 0, "ntp") && arg_is(args, 1, "server") {
            mode_set(false, false, true, false)
        } else if n >= 2 && arg_is(args, 0, "ip") && arg_is(args, 1, "route") {
            mode_set(false, false, true, false)
        } else if n >= 2 && arg_is(args, 0, "ip") && arg_is(args, 1, "address") {
            mode_set(false, false, false, true)
        } else {
            mode_set(true, true, true, true)
        },
        CommandKind::Clear => if n >= 1 && arg_is(args, 0, "ntp") {
            mode_set(false, true, false, false)
        } else {
            mode_set(true, true, true, true)
        },
        _ => mode_set(true, true, true, true),
    }
}

pub open spec fn done(o: Outcome) -> Result<Outcome, CliError> {
    Ok(o)
}

pub open spec fn fails(u: Usage) -> Result<Outcome, CliError> {
    Err(CliError::Usage(u))
}

/// The contract of `enable`: with no arguments it enters privileged mode at once when no
/// credential is stored, and otherwise asks for the stored ones; `enable password <pw>` and
/// `enable secret <s>` hand the clear text over for hashing.
pub open spec fn enable_post(
    old: CliContext,
    a: Seq<Seq<char>>,
    new: CliContext,
    r: Result<Outcome, CliError>,
) -> bool {
    if a.len() == 0 {
        match requirement_of(old.config) {
            None => r == done(Outcome::Notice(Notice::EnteredPrivileged)) && moved(
                old,
                new,
                Mode::PrivilegedMode,
            ),
            Some(req) => r == done(Outcome::AskCredentials(req)) && new == old,
        }
    } else if a[0] == "password"@ || a[0] == "secret"@ {
        let which = if a[0] == "password"@ {
            Credential::Password
        } else {
            Credential::Secret
        };
        &&& new == old
        &&& if a.len() != 2 {
            r == fails(
                if which == Credential::Password {
                    Usage::EnablePassword
                } else {
                    Usage::EnableSecret
                },
            )
        } else {
            r matches Ok(Outcome::StoreCredential(w, clear)) && w == which && clear@ == a[1]
        }
    } else {
        new == old && r == fails(Usage::Enable)
    }
}

fn enable(ctx: &mut CliContext, args: &Vec<String>) -> (r: Result<Outcome, CliError>)
    requires
        old(ctx).wf(),
    ensures
        final(ctx).wf(),
        enable_post(*old(ctx), views(args@), *final(ctx), r),
{
    if args.len() == 0 {
        match ctx.auth_requirement() {
            None => {
                ctx.set_mode(Mode::PrivilegedMode);
                Ok(Outcome::Notice(Notice::EnteredPrivileged))
            },
            Some(req) => Ok(Outcome::AskCredentials(req)),
        }
    } else {
        let is_password = arg_is(args, 0, "password");
        if is_password || arg_is(args, 0, "secret") {
            if args.len() != 2 {
                if is_password {
                    Err(CliError::Usage(Usage::EnablePassword))
                } else {
                    Err(CliError::Usage(Usage::EnableSecret))
                }
            } else {
                let which = if is_password {
                    Credential::Password
                } else {
                    Credential::Secret
                };
                proof {
                    assert(views(args@)[1] == args@[1]@);
                }
                Ok(Outcome::StoreCredential(which, args[1].clone()))
            }
        } else {
            Err(CliError::Usage(Usage::Enable))
        }
    }
}

/// The contract of `configure terminal`.
pub open spec fn configure_post(
    old: CliContext,
    a: Seq<Seq<char>>,
    new: CliContext,
    r: Result<Outcome, CliError>,
) -> bool {
    if a.len() == 1 && a[0] == "terminal"@ {
        r == done(Outcome::Notice(Notice::EnteredConfig)) && moved(old, new, Mode::ConfigMode)
    } else {
        new == old && r == fails(Usage::Configure)
    }
}

fn configure(ctx: &mut CliContext, args: &Vec<String>) -> (r: Result<Outcome, CliError>)
    requires
        old(ctx).wf(),
    ensures
        final(ctx).wf(),
        configure_post(*old(ctx), views(args@), *final(ctx), r),
{
    if args.len() == 1 && arg_is(args, 0, "terminal") {
        ctx.set_mode(Mode::ConfigMode);
        Ok(Outcome::Notice(Notice::EnteredConfig))
    } else {
        Err(CliError::Usage(Usage::Configure))
    }
}

/// `new` is `old` in interface mode with `name` selected.
pub open spec fn selected(old: CliContext, new: CliContext, name: Seq<char>) -> bool {
    &&& new.prompt@ == prompt_of(old.config.hostname@, Mode::InterfaceMode)
    &&& new.selected_interface matches Some(s) && s@ == name
    &&& new == CliContext {
        current_mode: Mode::InterfaceMode,
        prompt: new.prompt,
        selected_interface: new.selected_interface,
        ..old
    }
}

/// The contract of `interface <name>`: it succeeds exactly when the system has an
/// interface of that name; otherwise the error lists the names it has.
pub open spec fn interface_post(
    old: CliContext,
    a: Seq<Seq<char>>,
    env: Env,
    new: CliContext,
    r: Result<Outcome, CliError>,
) -> bool {
    if env.interface_error is Some {
        &&& new == old
        &&& r matches Err(CliError::Collaborator(x))
        &&& x@ == env.interface_error->0@
    } else if a.len() == 0 {
        &&& new == old
        &&& r matches Err(CliError::MissingInterface { available })
        &&& views(available@) == views(env.interfaces@)
    } else if a.len() == 1 {
        if views(env.interfaces@).contains(a[0]) {
            &&& r matches Ok(Outcome::Notice(Notice::EnteredInterface(n)))
            &&& n@ == a[0]
            &&& selected(old, new, a[0])
        } else {
            &&& new == old
            &&& r matches Err(CliError::UnknownInterface { name, available })
            &&& name@ == a[0]
            &&& views(available@) == views(env.interfaces@)
        }
    } else {
        new == old && r == fails(Usage::Interface)
    }
}

/// Whether `name` is one of `names`.
pub fn contains_text(names: &Vec<String>, name: &String) -> (r: bool)
    ensures
        r == views(names@).contains(name@),
{
    let mut i: usize = 0;
    while i < names.len()
        invariant
            i <= names@.len(),
            forall|j: int| 0 <= j < i ==> views(names@)[j] != name@,
        decreases names@.len() - i,
    {
        if str_eq(names[i].as_str(), name.as_str()) {
            proof {
                assert(views(names@)[i as int] == name@);
            }
            return true;
        }
        i = i + 1;
    }
    false
}

fn interface(ctx: &mut CliContext, args: &Vec<String>, env: &Env) -> (r: Result<
    Outcome,
    CliError,
>)
    requires
        old(ctx).wf(),
    ensures
        final(ctx).wf(),
        interface_post(*old(ctx), views(args@), *env, *final(ctx), r),
{
    if let Some(e) = &env.interface_error {
        return Err(CliError::Collaborator(e.clone()));
    }
    if args.len() == 0 {
        return Err(CliError::MissingInterface { available: env.interfaces.clone() });
    }
    if args.len() != 1 {
        return Err(CliError::Usage(Usage::Interface));
    }
    proof {
        assert(views(args@)[0] == args@[0]@);
    }
    if contains_text(&env.interfaces, &args[0]) {
        let name = args[0].clone();
        ctx.prompt = render_prompt(&ctx.config.hostname, Mode::InterfaceMode);
        ctx.current_mode = Mode::InterfaceMode;
        ctx.selected_interface = Some(name.clone());
        Ok(Outcome::Notice(Notice::EnteredInterface(name)))
    } else {
        Err(CliError::UnknownInterface { name: args[0].clone(), available: env.interfaces.clone() })
    }
}

/// The contract of `exit`: one step toward user mode; in user mode there is no mode to exit;
/// `exit ssh` ends the SSH session.
pub open spec fn exit_post(
    old: CliContext,
    a: Seq<Seq<char>>,
    new: CliContext,
    r: Result<Outcome, CliError>,
) -> bool {
    if a.len() == 0 {
        match old.current_mode {
            Mode::InterfaceMode => r == done(Outcome::Notice(Notice::ExitedInterface)) && moved(
                old,
                new,
                Mode::ConfigMode,
            ),
            Mode::ConfigMode => r == done(Outcome::Notice(Notice::ExitedConfig)) && moved(
                old,
                new,
                Mode::PrivilegedMode,
            ),
            Mode::PrivilegedMode => r == done(Outcome::Notice(Notice::ExitedPrivileged)) && moved(
                old,
                new,
                Mode::UserMode,
            ),
            Mode::UserMode => new == old && r == Err::<Outcome, CliError>(CliError::NoModeToExit),
        }
    } else if a.len() == 1 && a[0] == "ssh"@ {
        new == old && r == done(Outcome::EndSshSession)
    } else {
        new == old && r == fails(Usage::Exit)
    }
}

/// The error of a command run outside its modes.
pub open spec fn mode_error(k: CommandKind, a: Seq<Seq<char>>) -> Result<Outcome, CliError> {
    Err(CliError::ModeMismatch { command: k, permitted: permitted(k, a) })
}

fn exit(ctx: &mut CliContext, args: &Vec<String>) -> (r: Result<Outcome, CliError>)
    requires
        old(ctx).wf(),
    ensures
        final(ctx).wf(),
        exit_post(*old(ctx), views(args@), *final(ctx), r),
{
    if args.len() == 0 {
        match ctx.current_mode {
            Mode::InterfaceMode => {
                ctx.set_mode(Mode::ConfigMode);
                Ok(Outcome::Notice(Notice::ExitedInterface))
            },
            Mode::ConfigMode => {
                ctx.set_mode(Mode::PrivilegedMode);
                Ok(Outcome::Notice(Notice::ExitedConfig))
            },
            Mode::PrivilegedMode => {
                ctx.set_mode(Mode::UserMode);
                Ok(Outcome::Notice(Notice::ExitedPrivileged))
            },
            Mode::UserMode => Err(CliError::NoModeToExit),
        }
    } else if args.len() == 1 && arg_is(args, 0, "ssh") {
        Ok(Outcome::EndSshSession)
    } else {
        Err(CliError::Usage(Usage::Exit))
    }
}

/// The contract of `disable`: back to user mode.
pub open spec fn disable_post(
    old: CliContext,
    a: Seq<Seq<char>>,
    new: CliContext,
    r: Result<Outcome, CliError>,
) -> bool {
    if a.len() == 0 {
        r == done(Outcome::Notice(Notice::ExitedPrivileged)) && moved(old, new, Mode::UserMode)
    } else {
        new == old && r == fails(Usage::Disable)
    }
}

fn disable(ctx: &mut CliContext, args: &Vec<String>) -> (r: Result<Outcome, CliError>)
    requires
        old(ctx).wf(),
    ensures
        final(ctx).wf(),
        disable_post(*old(ctx), views(args@), *final(ctx), r),
{
    if args.len() == 0 {
        ctx.set_mode(Mode::UserMode);
        Ok(Outcome::Notice(Notice::ExitedPrivileged))
    } else {
        Err(CliError::Usage(Usage::Disable))
    }
}

/// The contract of `hostname <name>`: the new name, and the prompt rendered with it.
pub open spec fn hostname_post(
    old: CliContext,
    a: Seq<Seq<char>>,
    new: CliContext,
    r: Result<Outcome, CliError>,
) -> bool {
    if a.len() >= 1 {
        &&& r matches Ok(Outcome::Notice(Notice::HostnameChanged(h)))
        &&& h@ == a[0]
        &&& new.config.hostname@ == a[0]
        &&& new.prompt@ == prompt_of(a[0], old.current_mode)
        &&& new == CliContext {
            prompt: new.prompt,
            config: crate::context::CliConfig { hostname: new.config.hostname, ..old.config },
            ..old
        }
    } else {
        new == old && r == fails(Usage::Hostname)
    }
}

fn hostname(ctx: &mut CliContext, args: &Vec<String>) -> (r: Result<Outcome, CliError>)
    requires
        old(ctx).wf(),
    ensures
        final(ctx).wf(),
        hostname_post(*old(ctx), views(args@), *final(ctx), r),
{
    if args.len() >= 1 {
        proof {
            assert(views(args@)[0] == args@[0]@);
        }
        let name = args[0].clone();
        ctx.prompt = render_prompt(&name, ctx.current_mode);
        ctx.config.hostname = name.clone();
        Ok(Outcome::Notice(Notice::HostnameChanged(name)))
    } else {
        Err(CliError::Usage(Usage::Hostname))
    }
}

pub open spec fn word_seq(words: Seq<&str>) -> Seq<Seq<char>> {
    words.map_values(|w: &str| w@)
}

/// Owned copies of `words`, in order.
pub fn strings(words: Vec<&str>) -> (r: Vec<String>)
    ensures
        views(r@) == word_seq(words@),
{
    let mut out: Vec<String> = Vec::new();
    let mut i: usize = 0;
    while i < words.len()
        invariant
            i <= words@.len(),
            views(out@) == word_seq(words@).take(i as int),
        decreases words@.len() - i,
    {
        let ghost before = views(out@);
        out.push(words[i].to_owned());
        proof {
            assert(views(out@) =~= before.push(words@[i as int]@));
            assert(word_seq(words@).take(i + 1) =~= word_seq(words@).take(i as int).push(
                words@[i as int]@,
            ));
        }
        i = i + 1;
    }
    proof {
        assert(word_seq(words@).take(words@.len() as int) =~= word_seq(words@));
    }
    out
}

/// Appends `s` to a list of strings.
pub fn push_text(v: &mut Vec<String>, s: String)
    ensures
        views(final(v)@) == views(old(v)@).push(s@),
{
    let ghost before = views(v@);
    v.push(s);
    proof {
        assert(views(v@) =~= before.push(s@));
    }
}

/// A plan of one program run that changes nothing in the session, with the lines printed
/// around it.
pub fn run_one(program: &str, args: Vec<String>, before: Vec<String>, after: Vec<String>) -> (r:
    Outcome)
    ensures
        r matches Outcome::Run(plan) && plan.calls@.len() == 1 && plan.calls@[0].program@
            == program@ && plan.calls@[0].args@ == args@ && plan.update is None && plan.before@
            == before@ && plan.after@ == after@,
{
    let c = ProcessCall { program: program.to_owned(), args };
    Outcome::Run(RunPlan { calls: vec![c], update: None, before, after })
}

/// `r` runs `program` with `args` once, prints `before` and `after` around it, and changes
/// nothing.
pub open spec fn runs_one_noted(
    r: Result<Outcome, CliError>,
    program: Seq<char>,
    args: Seq<Seq<char>>,
    before: Seq<Seq<char>>,
    after: Seq<Seq<char>>,
) -> bool {
    &&& r matches Ok(Outcome::Run(plan))
    &&& plan.calls@.len() == 1
    &&& plan.calls@[0].is(program, args)
    &&& plan.update is None
    &&& plan.notes(before, after)
}

/// `r` runs `program` with `args` once, prints nothing of its own, and changes nothing.
pub open spec fn runs_one(r: Result<Outcome, CliError>, program: Seq<char>, args: Seq<Seq<char>>) -> bool {
    runs_one_noted(r, program, args, Seq::empty(), Seq::empty())
}

/// A single line.
pub fn one_line(s: String) -> (r: Vec<String>)
    ensures
        views(r@) == seq![s@],
{
    let r = vec![s];
    proof {
        assert(views(r@) =~= seq![s@]);
    }
    r
}

/// No lines.
pub fn no_lines() -> (r: Vec<String>)
    ensures
        views(r@) == Seq::<Seq<char>>::empty(),
{
    let r: Vec<String> = Vec::new();
    proof {
        assert(views(r@) =~= Seq::<Seq<char>>::empty());
    }
    r
}

/// The contract of the commands that only report or hand work to the caller; none of them
/// changes the session.
pub open spec fn simple_result(k: CommandKind, a: Seq<Seq<char>>, r: Result<Outcome, CliError>) -> bool {
    match k {
        CommandKind::Reload => r == done(Outcome::Confirm(Confirmation::Reload)),
        CommandKind::Poweroff => r == done(Outcome::Confirm(Confirmation::PowerOff)),
        CommandKind::Debug => if a.len() == 1 && a[0] == "all"@ {
            r == done(Outcome::Confirm(Confirmation::DebugAll))
        } else {
            r == fails(Usage::Debug)
        },
        CommandKind::Undebug => if a.len() == 1 && a[0] == "all"@ {
            r == done(Outcome::Notice(Notice::DebuggingOff))
        } else {
            r == fails(Usage::Undebug)
        },
        CommandKind::Connect => if a.len() == 1 && a[0] == "network"@ {
            r matches Ok(Outcome::Connect { user, host }) && user@ == "root"@ && host@
                == "192.168.101.100"@
        } else if a.len() == 1 && a[0] == "crypto"@ {
            r matches Ok(Outcome::Connect { user, host }) && user@ == "pnfcli"@ && host@
                == "192.168.253.147"@
        } else {
            r == fails(Usage::Connect)
        },
        CommandKind::Ifconfig => if a.len() == 0 {
            r == done(Outcome::Ifconfig(None))
        } else {
            r matches Ok(Outcome::Ifconfig(Some(name))) && name@ == a[0]
        },
        CommandKind::Ping => if a.len() == 1 {
            runs_one_noted(
                r,
                "ping"@,
                seq!["-c"@, "4"@, "-s"@, "32"@, a[0]],
                seq!["Pinging "@ + a[0] + " with 32 bytes of data:"@],
                Seq::empty(),
            )
        } else {
            r == fails(Usage::Ping)
        },
        CommandKind::Traceroute => if a.len() == 1 {
            runs_one_noted(
                r,
                "traceroute"@,
                seq!["-n"@, "-m"@, "30"@, a[0]],
                seq!["Tracing route to "@ + a[0] + " over a maximum of 30 hops"@],
                seq!["Trace Completed."@],
            )
        } else {
            r == fails(Usage::Traceroute)
        },
        CommandKind::Ssh => ssh_result(a, r),
        _ => false,
    }
}

/// Whether command `k` is one that only reports or hands work to the caller.
pub open spec fn is_simple(k: CommandKind) -> bool {
    k == CommandKind::Reload || k == CommandKind::Poweroff || k == CommandKind::Debug || k
        == CommandKind::Undebug || k == CommandKind::Connect || k == CommandKind::Ifconfig || k
        == CommandKind::Ping || k == CommandKind::Traceroute || k == CommandKind::Ssh
}

/// The contract of `ssh`: `-v` reports the version, `-l <user>@<host>` connects, `-h` and
/// `--help` print help; anything else is reported, not refused.
pub open spec fn ssh_result(a: Seq<Seq<char>>, r: Result<Outcome, CliError>) -> bool {
    if a.len() == 0 {
        r == done(Outcome::Notice(Notice::SshMissing))
    } else if a[0] == "-v"@ {
        r == done(Outcome::Notice(Notice::SshVersion))
    } else if a[0] == "-l"@ {
        if a.len() < 2 {
            r == done(Outcome::Notice(Notice::SshLoginUsage))
        } else if a[1].contains('@') {
            &&& r matches Ok(Outcome::Connect { user, host })
            &&& user@ + seq!['@'] + host@ == a[1]
            &&& !user@.contains('@')
        } else {
            r == done(Outcome::Notice(Notice::SshLoginFormat))
        }
    } else if a[0] == "-h"@ || a[0] == "--help"@ {
        r == done(Outcome::Notice(Notice::SshHelp))
    } else {
        r matches Ok(Outcome::Notice(Notice::InvalidSshOption(o))) && o@ == a[0]
    }
}

fn ssh(args: &Vec<String>) -> (r: Result<Outcome, CliError>)
    ensures
        ssh_result(views(args@), r),
{
    if args.len() == 0 {
        return Ok(Outcome::Notice(Notice::SshMissing));
    }
    proof {
        assert(views(args@)[0] == args@[0]@);
    }
    if arg_is(args, 0, "-v") {
        Ok(Outcome::Notice(Notice::SshVersion))
    } else if arg_is(args, 0, "-l") {
        if args.len() < 2 {
            Ok(Outcome::Notice(Notice::SshLoginUsage))
        } else {
            proof {
                assert(views(args@)[1] == args@[1]@);
            }
            match split_once_char(args[1].as_str(), '@') {
                Some((user, host)) => Ok(Outcome::Connect { user, host }),
                None => Ok(Outcome::Notice(Notice::SshLoginFormat)),
            }
        }
    } else if arg_is(args, 0, "-h") || arg_is(args, 0, "--help") {
        Ok(Outcome::Notice(Notice::SshHelp))
    } else {
        Ok(Outcome::Notice(Notice::InvalidSshOption(args[0].clone())))
    }
}

fn simple(k: CommandKind, args: &Vec<String>) -> (r: Result<Outcome, CliError>)
    requires
        is_simple(k),
    ensures
        simple_result(k, views(args@), r),
{
    let n = args.len();
    proof {
        if n > 0 {
            assert(views(args@)[0] == args@[0]@);
        }
    }
    match k {
        CommandKind::Reload => Ok(Outcome::Confirm(Confirmation::Reload)),
        CommandKind::Poweroff => Ok(Outcome::Confirm(Confirmation::PowerOff)),
        CommandKind::Debug => if n == 1 && arg_is(args, 0, "all") {
            Ok(Outcome::Confirm(Confirmation::DebugAll))
        } else {
            Err(CliError::Usage(Usage::Debug))
        },
        CommandKind::Undebug => if n == 1 && arg_is(args, 0, "all") {
            Ok(Outcome::Notice(Notice::DebuggingOff))
        } else {
            Err(CliError::Usage(Usage::Undebug))
        },
        CommandKind::Connect => if n == 1 && arg_is(args, 0, "network") {
            Ok(Outcome::Connect { user: "root".to_owned(), host: "192.168.101.100".to_owned() })
        } else if n == 1 && arg_is(args, 0, "crypto") {
            Ok(Outcome::Connect { user: "pnfcli".to_owned(), host: "192.168.253.147".to_owned() })
        } else {
            Err(CliError::Usage(Usage::Connect))
        },
        CommandKind::Ifconfig => if n == 0 {
            Ok(Outcome::Ifconfig(None))
        } else {
            Ok(Outcome::Ifconfig(Some(args[0].clone())))
        },
        CommandKind::Ping => if n == 1 {
            let mut v = strings(vec!["-c", "4", "-s", "32"]);
            let ghost before = views(v@);
            v.push(args[0].clone());
            proof {
                assert(views(v@) =~= before.push(args@[0]@));
                assert(views(v@) =~= seq!["-c"@, "4"@, "-s"@, "32"@, views(args@)[0]]);
            }
            let before = one_line(
                "Pinging ".to_owned().concat(args[0].as_str()).concat(" with 32 bytes of data:"),
            );
            Ok(run_one("ping", v, before, no_lines()))
        } else {
            Err(CliError::Usage(Usage::Ping))
        },
        CommandKind::Ssh => ssh(args),
        _ => if n == 1 {
            let mut v = strings(vec!["-n", "-m", "30"]);
            let ghost before = views(v@);
            v.push(args[0].clone());
            proof {
                assert(views(v@) =~= before.push(args@[0]@));
                assert(views(v@) =~= seq!["-n"@, "-m"@, "30"@, views(args@)[0]]);
            }
            let before = one_line(
                "Tracing route to ".to_owned().concat(args[0].as_str()).concat(
                    " over a maximum of 30 hops",
                ),
            );
            Ok(run_one("traceroute", v, before, one_line("Trace Completed.".to_owned())))
        } else {
            Err(CliError::Usage(Usage::Traceroute))
        },
    }
}

/// The contract of `show <what>` (and of `do show <what>`), once the mode allows it.
pub open spec fn show_result(c: CliContext, a: Seq<Seq<char>>, env: Env, r: Result<Outcome, CliError>) -> bool {
    if a.len() == 0 {
        r == done(Outcome::Notice(Notice::MissingShowParameter))
    } else if a[0] == "clock"@ {
        r == done(
            if env.clock_available {
                Outcome::ShowClock
            } else {
                Outcome::Notice(Notice::ClockUnavailable)
            },
        )
    } else if a[0] == "uptime"@ {
        r == done(
            if env.clock_available {
                Outcome::ShowUptime
            } else {
                Outcome::Notice(Notice::ClockUnavailable)
            },
        )
    } else if a[0] == "version"@ {
        r == done(Outcome::Notice(Notice::Version))
    } else if a[0] == "sessions"@ {
        runs_one(r, "sudo"@, seq!["w"@])
    } else if a[0] == "controllers"@ {
        runs_one(r, "sudo"@, seq!["lshw"@, "-class"@, "network"@])
    } else if a[0] == "history"@ {
        r == done(Outcome::ShowHistory)
    } else if a[0] == "running-config"@ {
        r matches Ok(Outcome::Print(lines)) && views(lines@) == run_conf_text(c)
    } else if a[0] == "startup-config"@ {
        r == done(Outcome::ShowStartup)
    } else if a[0] == "interfaces"@ {
        runs_one(r, "ls"@, seq!["/sys/class/net"@])
    } else if a[0] == "ip"@ {
        if a.len() >= 2 && a[1] == "interface"@ {
            if a.len() >= 3 && a[2] == "brief"@ {
                runs_one(r, "ip"@, seq!["a"@])
            } else {
                r == fails(Usage::ShowIpInterface)
            }
        } else if a.len() >= 2 && a[1] == "route"@ {
            runs_one(r, "ip"@, seq!["route"@])
        } else {
            r == fails(Usage::ShowIp)
        }
    } else if a[0] == "login"@ {
        runs_one(r, "sudo"@, seq!["last"@])
    } else if a[0] == "ntp"@ {
        if a.len() == 1 {
            r matches Ok(Outcome::Print(lines)) && views(lines@) == ntp_status_text(c)
        } else if a[1] == "associations"@ {
            r matches Ok(Outcome::Print(lines)) && views(lines@) == associations_text(c)
        } else {
            r == fails(Usage::ShowNtp)
        }
    } else if a[0] == "processes"@ {
        runs_one(r, "sudo"@, seq!["lscpu"@])
    } else {
        r matches Ok(Outcome::Notice(Notice::InvalidShow(x))) && x@ == a[0]
    }
}

fn run_call(c: ProcessCall) -> (r: Outcome)
    ensures
        r matches Outcome::Run(plan) && plan.calls@ == seq![c] && plan.update is None
            && plan.notes(Seq::empty(), Seq::empty()),
{
    Outcome::Run(RunPlan { calls: vec![c], update: None, before: no_lines(), after: no_lines() })
}

/// Decides what `show <what>` displays.
pub fn show_reply(ctx: &CliContext, args: &Vec<String>, env: &Env) -> (r: Result<Outcome, CliError>)
    ensures
        show_result(*ctx, views(args@), *env, r),
{
    let n = args.len();
    if n == 0 {
        return Ok(Outcome::Notice(Notice::MissingShowParameter));
    }
    proof {
        assert(forall|i: int| 0 <= i < n ==> #[trigger] views(args@)[i] == args@[i]@);
    }
    if arg_is(args, 0, "clock") {
        Ok(show_clock(env.clock_available))
    } else if arg_is(args, 0, "uptime") {
        Ok(show_uptime(env.clock_available))
    } else if arg_is(args, 0, "version") {
        Ok(Outcome::Notice(Notice::Version))
    } else if arg_is(args, 0, "sessions") {
        Ok(run_call(show_sessions()))
    } else if arg_is(args, 0, "controllers") {
        Ok(run_call(show_controllers()))
    } else if arg_is(args, 0, "history") {
        Ok(Outcome::ShowHistory)
    } else if arg_is(args, 0, "running-config") {
        Ok(Outcome::Print(show_run_conf(ctx)))
    } else if arg_is(args, 0, "startup-config") {
        Ok(Outcome::ShowStartup)
    } else if arg_is(args, 0, "interfaces") {
        Ok(run_call(show_interfaces()))
    } else if arg_is(args, 0, "ip") {
        if n >= 2 && arg_is(args, 1, "interface") {
            if n >= 3 && arg_is(args, 2, "brief") {
                Ok(run_call(show_ip_int_br()))
            } else {
                Err(CliError::Usage(Usage::ShowIpInterface))
            }
        } else if n >= 2 && arg_is(args, 1, "route") {
            Ok(run_call(show_ip_route()))
        } else {
            Err(CliError::Usage(Usage::ShowIp))
        }
    } else if arg_is(args, 0, "login") {
        Ok(run_call(show_login()))
    } else if arg_is(args, 0, "ntp") {
        if n == 1 {
            Ok(Outcome::Print(show_ntp(ctx)))
        } else if arg_is(args, 1, "associations") {
            Ok(Outcome::Print(show_ntp_asso(ctx)))
        } else {
            Err(CliError::Usage(Usage::ShowNtp))
        }
    } else if arg_is(args, 0, "processes") {
        Ok(run_call(show_proc()))
    } else {
        Ok(Outcome::Notice(Notice::InvalidShow(args[0].clone())))
    }
}

/// The arguments after the first `k`.
pub fn skip_args(args: &Vec<String>, k: usize) -> (r: Vec<String>)
    requires
        k <= args@.len(),
    ensures
        views(r@) == views(args@).skip(k as int),
{
    let mut out: Vec<String> = Vec::new();
    let mut i: usize = k;
    proof {
        assert(views(out@) =~= views(args@).subrange(k as int, k as int));
    }
    while i < args.len()
        invariant
            k <= i <= args@.len(),
            views(out@) == views(args@).subrange(k as int, i as int),
        decreases args@.len() - i,
    {
        push_text(&mut out, args[i].clone());
        proof {
            assert(views(args@).subrange(k as int, i + 1) =~= views(args@).subrange(
                k as int,
                i as int,
            ).push(args@[i as int]@));
        }
        i = i + 1;
    }
    proof {
        assert(views(args@).skip(k as int) =~= views(args@).subrange(k as int, args@.len() as int));
    }
    out
}

/// The contract of the commands that read the session and leave it as it is.
pub open spec fn reading_result(
    k: CommandKind,
    c: CliContext,
    a: Seq<Seq<char>>,
    env: Env,
    r: Result<Outcome, CliError>,
) -> bool {
    match k {
        CommandKind::Show => show_result(c, a, env, r),
        CommandKind::Do => if a.len() == 0 {
            r == done(Outcome::Notice(Notice::MissingDoParameter))
        } else if a[0] == "show"@ {
            show_result(c, a.skip(1), env, r)
        } else {
            r matches Ok(Outcome::Notice(Notice::InvalidDo(x))) && x@ == a[0]
        },
        CommandKind::Write => if a.len() == 1 && a[0] == "memory"@ {
            r matches Ok(Outcome::SaveStartup(t)) && t@ == running_config_text(c)
        } else {
            r == fails(Usage::Write)
        },
        CommandKind::Copy => if a.len() < 2 {
            r == fails(Usage::Copy)
        } else if a[1] == "startup-config"@ {
            r matches Ok(Outcome::SaveStartup(t)) && t@ == running_config_text(c)
        } else {
            &&& r matches Ok(Outcome::CopyTo { path, text })
            &&& path@ == a[1]
            &&& text@ == running_config_text(c)
        },
        CommandKind::Help => r matches Ok(Outcome::Print(lines)) && views(lines@) == help_text(
            c.current_mode,
        ),
        CommandKind::Clock => if a.len() > 1 && a[0] == "set"@ {
            if env.clock_available {
                r matches Ok(Outcome::SetClock(w)) && views(w@) == a.skip(1)
            } else {
                r == Err::<Outcome, CliError>(CliError::ClockUnavailable)
            }
        } else {
            r == fails(Usage::ClockSet)
        },
        CommandKind::Ip => ip_result(c, a, env, r),
        CommandKind::Shutdown => sets_link(r, c, false),
        _ => simple_result(k, a, r),
    }
}

pub open spec fn is_reading(k: CommandKind) -> bool {
    k == CommandKind::Show || k == CommandKind::Do || k == CommandKind::Write || k
        == CommandKind::Copy || k == CommandKind::Help || k == CommandKind::Clock || k
        == CommandKind::Ip || k == CommandKind::Shutdown || is_simple(k)
}

fn reading(k: CommandKind, ctx: &CliContext, args: &Vec<String>, env: &Env) -> (r: Result<
    Outcome,
    CliError,
>)
    requires
        is_reading(k),
    ensures
        reading_result(k, *ctx, views(args@), *env, r),
{
    let n = args.len();
    proof {
        assert(forall|i: int| 0 <= i < n ==> #[trigger] views(args@)[i] == args@[i]@);
    }
    match k {
        CommandKind::Show => show_reply(ctx, args, env),
        CommandKind::Do => if n == 0 {
            Ok(Outcome::Notice(Notice::MissingDoParameter))
        } else if arg_is(args, 0, "show") {
            let rest = skip_args(args, 1);
            show_reply(ctx, &rest, env)
        } else {
            Ok(Outcome::Notice(Notice::InvalidDo(args[0].clone())))
        },
        CommandKind::Write => if n == 1 && arg_is(args, 0, "memory") {
            Ok(Outcome::SaveStartup(get_running_config(ctx)))
        } else {
            Err(CliError::Usage(Usage::Write))
        },
        CommandKind::Copy => if n < 2 {
            Err(CliError::Usage(Usage::Copy))
        } else if arg_is(args, 1, "startup-config") {
            Ok(Outcome::SaveStartup(get_running_config(ctx)))
        } else {
            Ok(Outcome::CopyTo { path: args[1].clone(), text: get_running_config(ctx) })
        },
        CommandKind::Help => Ok(Outcome::Print(help_command(ctx))),
        CommandKind::Clock => if n > 1 && arg_is(args, 0, "set") {
            if env.clock_available {
                Ok(Outcome::SetClock(skip_args(args, 1)))
            } else {
                Err(CliError::ClockUnavailable)
            }
        } else {
            Err(CliError::Usage(Usage::ClockSet))
        },
        CommandKind::Ip => ip(ctx, args, env),
        CommandKind::Shutdown => shutdown(ctx),
        _ => simple(k, args),
    }
}

/// The contract of `clear` and `service password-encryption`.
pub open spec fn setting_post(
    k: CommandKind,
    old: CliContext,
    a: Seq<Seq<char>>,
    new: CliContext,
    r: Result<Outcome, CliError>,
) -> bool {
    if k == CommandKind::Clear {
        if a.len() == 0 {
            new == old && r == done(Outcome::ClearScreen)
        } else if a[0] == "ntp"@ && a.len() >= 2 && a[1] == "associations"@ {
            &&& r == done(Outcome::Notice(Notice::NtpAssociationsCleared))
            &&& new.ntp_associations@.len() == 0
            &&& new == CliContext { ntp_associations: new.ntp_associations, ..old }
        } else {
            new == old && r == fails(Usage::Clear)
        }
    } else if a.len() == 1 && a[0] == "password-encryption"@ {
        &&& r == done(Outcome::Notice(Notice::PasswordEncryption))
        &&& new == CliContext {
            config: CliConfig { password_encryption: true, ..old.config },
            ..old
        }
    } else {
        new == old && r == fails(Usage::Service)
    }
}

fn setting(k: CommandKind, ctx: &mut CliContext, args: &Vec<String>) -> (r: Result<
    Outcome,
    CliError,
>)
    requires
        old(ctx).wf(),
        k == CommandKind::Clear || k == CommandKind::Service,
    ensures
        final(ctx).wf(),
        setting_post(k, *old(ctx), views(args@), *final(ctx), r),
{
    let n = args.len();
    if k == CommandKind::Clear {
        if n == 0 {
            Ok(Outcome::ClearScreen)
        } else if arg_is(args, 0, "ntp") && n >= 2 && arg_is(args, 1, "associations") {
            ctx.ntp_associations = Vec::new();
            proof {
                assert(addresses(ctx.ntp_associations@) =~= Seq::<Seq<char>>::empty());
            }
            Ok(Outcome::Notice(Notice::NtpAssociationsCleared))
        } else {
            Err(CliError::Usage(Usage::Clear))
        }
    } else if n == 1 && arg_is(args, 0, "password-encryption") {
        ctx.config.password_encryption = true;
        Ok(Outcome::Notice(Notice::PasswordEncryption))
    } else {
        Err(CliError::Usage(Usage::Service))
    }
}

/// The contract of a command that its mode allows.
pub open spec fn command_post(
    k: CommandKind,
    old: CliContext,
    a: Seq<Seq<char>>,
    env: Env,
    new: CliContext,
    r: Result<Outcome, CliError>,
) -> bool {
    match k {
        CommandKind::Enable => enable_post(old, a, new, r),
        CommandKind::Configure => configure_post(old, a, new, r),
        CommandKind::Interface => interface_post(old, a, env, new, r),
        CommandKind::Exit => exit_post(old, a, new, r),
        CommandKind::Disable => disable_post(old, a, new, r),
        CommandKind::Hostname => hostname_post(old, a, new, r),
        CommandKind::Ntp => ntp_post(old, a, new, r),
        CommandKind::No => no_post(old, a, env, new, r),
        CommandKind::Clear => setting_post(k, old, a, new, r),
        CommandKind::Service => setting_post(k, old, a, new, r),
        _ => new == old && reading_result(k, old, a, env, r),
    }
}

/// The contract of `dispatch`: a mode error, with no change, where the current mode does not
/// allow the command; otherwise what the command does.
pub open spec fn dispatch_post(
    k: CommandKind,
    old: CliContext,
    a: Seq<Seq<char>>,
    env: Env,
    new: CliContext,
    r: Result<Outcome, CliError>,
) -> bool {
    if permitted(k, a).has(old.current_mode) {
        command_post(k, old, a, env, new, r)
    } else {
        new == old && r == mode_error(k, a)
    }
}

/// Runs command `k` with arguments `args`: a mode error, with no change, where the current
/// mode does not allow it; otherwise what the command does.
pub fn dispatch(ctx: &mut CliContext, k: CommandKind, args: &Vec<String>, env: &Env) -> (r: Result<
    Outcome,
    CliError,
>)
    requires
        old(ctx).wf(),
    ensures
        final(ctx).wf(),
        dispatch_post(k, *old(ctx), views(args@), *env, *final(ctx), r),
{
    let allowed = permitted_modes(k, args);
    if !allowed.contains(ctx.current_mode) {
        return Err(CliError::ModeMismatch { command: k, permitted: allowed });
    }
    match k {
        CommandKind::Enable => enable(ctx, args),
        CommandKind::Configure => configure(ctx, args),
        CommandKind::Interface => interface(ctx, args, env),
        CommandKind::Exit => exit(ctx, args),
        CommandKind::Disable => disable(ctx, args),
        CommandKind::Hostname => hostname(ctx, args),
        CommandKind::Ntp => ntp(ctx, args),
        CommandKind::No => no(ctx, args, env),
        CommandKind::Clear => setting(k, ctx, args),
        CommandKind::Service => setting(k, ctx, args),
        _ => reading(k, ctx, args, env),
    }
}

/// What a command line does: nothing for a blank line, an error for an unknown first token,
/// and otherwise what `dispatch` does with the rest of the tokens.
pub open spec fn line_post(
    old: CliContext,
    line: Seq<char>,
    env: Env,
    new: CliContext,
    r: Result<Outcome, CliError>,
) -> bool {
    let t = tokens_of(line);
    if t.len() == 0 {
        new == old && r == done(Outcome::Nothing)
    } else {
        match command_named(t[0]) {
            None => new == old && (r matches Err(CliError::UnknownCommand(x)) && x@ == t[0]),
            Some(k) => dispatch_post(k, old, t.skip(1), env, new, r),
        }
    }
}

/// Runs one command line against the session.
pub fn execute(ctx: &mut CliContext, line: &str, env: &Env) -> (r: Result<Outcome, CliError>)
    requires
        old(ctx).wf(),
    ensures
        final(ctx).wf(),
        line_post(*old(ctx), line@, *env, *final(ctx), r),
{
    let tokens = tokenize(line);
    if tokens.len() == 0 {
        return Ok(Outcome::Nothing);
    }
    proof {
        assert(views(tokens@)[0] == tokens@[0]@);
    }
    match lookup(tokens[0].as_str()) {
        None => Err(CliError::UnknownCommand(tokens[0].clone())),
        Some(k) => {
            let args = skip_args(&tokens, 1);
            dispatch(ctx, k, &args, env)
        },
    }
}

/// How a yes/no answer reads, blanks around it ignored: yes for `yes`, `y` or nothing, no
/// for `no` or `n`, in any case; `None` for anything else.
pub open spec fn answer_of(line: Seq<char>) -> Option<bool> {
    let t = tokens_of(line);
    if t.len() == 0 {
        Some(true)
    } else if t.len() == 1 && (spells(t[0], "yes"@) || spells(t[0], "y"@)) {
        Some(true)
    } else if t.len() == 1 && (spells(t[0], "no"@) || spells(t[0], "n"@)) {
        Some(false)
    } else {
        None
    }
}

/// The contract of `confirm_reply`.
pub open spec fn confirmed(q: Confirmation, line: Seq<char>, r: Result<Outcome, CliError>) -> bool {
    match answer_of(line) {
        None => r == Err::<Outcome, CliError>(CliError::InvalidAnswer),
        Some(true) => match q {
            Confirmation::Reload => runs_one(r, "sudo"@, seq!["reboot"@]),
            Confirmation::PowerOff => r == done(Outcome::PowerOff),
            Confirmation::DebugAll => r == done(Outcome::Notice(Notice::DebuggingOn)),
        },
        Some(false) => match q {
            Confirmation::DebugAll => r == done(Outcome::Notice(Notice::DebugDeclined)),
            _ => r == done(Outcome::Notice(Notice::ReloadAborted)),
        },
    }
}

/// Acts on the answer to a command's yes/no question.
pub fn confirm_reply(q: Confirmation, answer: &str) -> (r: Result<Outcome, CliError>)
    ensures
        confirmed(q, answer@, r),
{
    let t = tokenize(answer);
    proof {
        if t@.len() > 0 {
            assert(views(t@)[0] == t@[0]@);
        }
    }
    let yes = t.len() == 0 || (t.len() == 1 && (spells_word(t[0].as_str(), "yes") || spells_word(
        t[0].as_str(),
        "y",
    )));
    let no = t.len() == 1 && (spells_word(t[0].as_str(), "no") || spells_word(t[0].as_str(), "n"));
    if yes {
        match q {
            Confirmation::Reload => {
                let v = strings(vec!["reboot"]);
                proof {
                    assert(views(v@) =~= seq!["reboot"@]);
                }
                Ok(run_one("sudo", v, no_lines(), no_lines()))
            },
            Confirmation::PowerOff => Ok(Outcome::PowerOff),
            Confirmation::DebugAll => Ok(Outcome::Notice(Notice::DebuggingOn)),
        }
    } else if no {
        match q {
            Confirmation::DebugAll => Ok(Outcome::Notice(Notice::DebugDeclined)),
            _ => Ok(Outcome::Notice(Notice::ReloadAborted)),
        }
    } else {
        Err(CliError::InvalidAnswer)
    }
}

} // verus!
