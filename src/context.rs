use vstd::prelude::*;

use crate::clicommands::CommandKind;
use crate::errors::{AuthFailure, CliError};
use crate::mode::{modes, prompt_of, render_prompt, Mode};
use crate::network_config::{AccessControlList, NtpAssociation, OSPFConfig};
use crate::outcome::{AuthRequirement, Credential, Notice, Outcome, StateUpdate};
use crate::text::{str_eq, views};

verus! {

/// Device settings: hostname and the enable credentials.
#[derive(Clone, Debug)]
pub struct CliConfig {
    pub hostname: String,
    /// The clear text of the enable password, kept for display.
    pub enable_password: Option<String>,
    /// The clear text of the enable secret, kept for display.
    pub enable_secret: Option<String>,
    /// The hash of the enable password; `enable` compares against it.
    pub password_hash: Option<String>,
    /// The hash of the enable secret; `enable` compares against it.
    pub secret_hash: Option<String>,
    pub password_encryption: bool,
}

/// The state of one shell session.
#[derive(Clone, Debug)]
pub struct CliContext {
    pub current_mode: Mode,
    pub prompt: String,
    pub config: CliConfig,
    pub selected_interface: Option<String>,
    /// The bare IPv4 address of each interface (no prefix length), as set by `ip address`;
    /// one entry per name.
    pub interface_addresses: Vec<(String, String)>,
    /// Whether each interface was last brought up or down; one entry per name.
    pub interface_up: Vec<(String, bool)>,
    /// The configured NTP servers, each once.
    pub ntp_servers: Vec<String>,
    pub ntp_associations: Vec<NtpAssociation>,
    pub ntp_master: bool,
    pub ntp_authentication_enabled: bool,
    /// NTP key number and MD5 key; one entry per key number.
    pub ntp_authentication_keys: Vec<(u32, String)>,
    /// The trusted NTP key numbers, each once.
    pub ntp_trusted_keys: Vec<u32>,
    pub ntp_source_interface: Option<String>,
    /// OSPF settings, held as configuration only.
    pub ospf: OSPFConfig,
    /// Access control lists, held as configuration only.
    pub access_lists: Vec<AccessControlList>,
}

/// What the session reads from the system for a command.
#[derive(Clone, Debug)]
pub struct Env {
    /// The names of the system's network interfaces.
    pub interfaces: Vec<String>,
    /// Why the names could not be read, where they could not; commands that need them fail
    /// with this.
    pub interface_error: Option<String>,
    /// Whether a clock is present.
    pub clock_available: bool,
}

pub open spec fn distinct_texts(s: Seq<Seq<char>>) -> bool {
    forall|i: int, j: int| 0 <= i < j < s.len() ==> s[i] != s[j]
}

pub open spec fn distinct_keys<V>(s: Seq<(u32, V)>) -> bool {
    forall|i: int, j: int| 0 <= i < j < s.len() ==> s[i].0 != s[j].0
}

pub open spec fn distinct_numbers(s: Seq<u32>) -> bool {
    forall|i: int, j: int| 0 <= i < j < s.len() ==> s[i] != s[j]
}

/// The addresses of a list of NTP associations.
pub open spec fn addresses(s: Seq<NtpAssociation>) -> Seq<Seq<char>> {
    s.map_values(|a: NtpAssociation| a.address@)
}

pub open spec fn names_of<V>(s: Seq<(String, V)>) -> Seq<Seq<char>> {
    s.map_values(|e: (String, V)| e.0@)
}

/// The credentials that `enable` asks for, given what is stored.
pub open spec fn requirement_of(c: CliConfig) -> Option<AuthRequirement> {
    match (c.password_hash, c.secret_hash) {
        (None, None) => None,
        (Some(_), None) => Some(AuthRequirement::Password),
        (None, Some(_)) => Some(AuthRequirement::Secret),
        (Some(_), Some(_)) => Some(AuthRequirement::Both),
    }
}

/// Whether a supplied hash is present and equals the stored one.
pub open spec fn hash_matches(given: Option<String>, stored: Option<String>) -> bool {
    &&& given is Some
    &&& stored is Some
    &&& given->0@ == stored->0@
}

/// Whether the supplied hashes open privileged mode.
pub open spec fn enable_accepts(c: CliConfig, password: Option<String>, secret: Option<String>) -> bool {
    match requirement_of(c) {
        None => true,
        Some(AuthRequirement::Password) => hash_matches(password, c.password_hash),
        Some(AuthRequirement::Secret) => hash_matches(secret, c.secret_hash),
        Some(AuthRequirement::Both) => hash_matches(password, c.password_hash) && hash_matches(
            secret,
            c.secret_hash,
        ),
    }
}

/// The error of a failed `enable` for each requirement.
pub open spec fn failure_of(req: AuthRequirement) -> AuthFailure {
    match req {
        AuthRequirement::Password => AuthFailure::IncorrectPassword,
        AuthRequirement::Secret => AuthFailure::IncorrectSecret,
        AuthRequirement::Both => AuthFailure::IncorrectPasswordOrSecret,
    }
}

/// `new` is `old` in mode `m`, with the prompt of that mode, and nothing else changed.
pub open spec fn moved(old: CliContext, new: CliContext, m: Mode) -> bool {
    &&& new.prompt@ == prompt_of(old.config.hostname@, m)
    &&& new == CliContext { current_mode: m, prompt: new.prompt, ..old }
}

pub open spec fn user_only() -> crate::mode::ModeSet {
    modes(true, false, false, false)
}

/// The effect of `complete_enable`: a mode error outside user mode; privileged mode when
/// the hashes match what is stored; otherwise the error for what was asked, and no change.
pub open spec fn enable_completed(
    old: CliContext,
    password: Option<String>,
    secret: Option<String>,
    new: CliContext,
    r: Result<Outcome, CliError>,
) -> bool {
    if old.current_mode != Mode::UserMode {
        &&& r == Err::<Outcome, CliError>(
            CliError::ModeMismatch { command: CommandKind::Enable, permitted: user_only() },
        )
        &&& new == old
    } else if enable_accepts(old.config, password, secret) {
        &&& r == Ok::<Outcome, CliError>(Outcome::Notice(Notice::EnteredPrivileged))
        &&& moved(old, new, Mode::PrivilegedMode)
    } else {
        &&& r == Err::<Outcome, CliError>(
            CliError::Auth(failure_of(requirement_of(old.config)->0)),
        )
        &&& new == old
    }
}

/// `old` with a credential's clear text and hash stored.
pub open spec fn with_credential(
    old: CliContext,
    which: Credential,
    clear: String,
    hashed: String,
) -> CliContext {
    match which {
        Credential::Password => CliContext {
            config: CliConfig {
                enable_password: Some(clear),
                password_hash: Some(hashed),
                ..old.config
            },
            ..old
        },
        Credential::Secret => CliContext {
            config: CliConfig { enable_secret: Some(clear), secret_hash: Some(hashed), ..old.config },
            ..old
        },
    }
}

impl CliContext {
    /// The session's invariant: the prompt matches hostname and mode, and keyed collections
    /// hold one entry per key.
    pub open spec fn wf(self) -> bool {
        &&& self.prompt@ == prompt_of(self.config.hostname@, self.current_mode)
        &&& distinct_texts(names_of(self.interface_addresses@))
        &&& distinct_texts(names_of(self.interface_up@))
        &&& distinct_texts(views(self.ntp_servers@))
        &&& distinct_texts(addresses(self.ntp_associations@))
        &&& distinct_keys(self.ntp_authentication_keys@)
        &&& distinct_numbers(self.ntp_trusted_keys@)
    }

    /// A new session in user mode for `hostname`, with nothing configured.
    pub fn new(hostname: String) -> (r: CliContext)
        ensures
            r.wf(),
            r.current_mode == Mode::UserMode,
            r.config.hostname@ == hostname@,
            r.config.enable_password is None,
            r.config.enable_secret is None,
            r.config.password_hash is None,
            r.config.secret_hash is None,
            !r.config.password_encryption,
            r.selected_interface is None,
            r.interface_addresses@.len() == 0,
            r.interface_up@.len() == 0,
            r.ntp_servers@.len() == 0,
            r.ntp_associations@.len() == 0,
            !r.ntp_master,
            !r.ntp_authentication_enabled,
            r.ntp_authentication_keys@.len() == 0,
            r.ntp_trusted_keys@.len() == 0,
            r.ntp_source_interface is None,
            r.ospf.passive_interfaces@.len() == 0,
            r.ospf.distance is None,
            !r.ospf.default_information_originate,
            r.ospf.router_id is None,
            r.ospf.areas@.len() == 0,
            r.ospf.networks@.len() == 0,
            r.ospf.neighbors@.len() == 0,
            r.ospf.process_id is None,
            r.access_lists@.len() == 0,
    {
        let prompt = render_prompt(&hostname, Mode::UserMode);
        let r = CliContext {
            current_mode: Mode::UserMode,
            prompt,
            config: CliConfig {
                hostname,
                enable_password: None,
                enable_secret: None,
                password_hash: None,
                secret_hash: None,
                password_encryption: false,
            },
            selected_interface: None,
            interface_addresses: Vec::new(),
            interface_up: Vec::new(),
            ntp_servers: Vec::new(),
            ntp_associations: Vec::new(),
            ntp_master: false,
            ntp_authentication_enabled: false,
            ntp_authentication_keys: Vec::new(),
            ntp_trusted_keys: Vec::new(),
            ntp_source_interface: None,
            ospf: OSPFConfig::new(),
            access_lists: Vec::new(),
        };
        proof {
            assert(names_of(r.interface_addresses@) =~= Seq::<Seq<char>>::empty());
            assert(names_of(r.interface_up@) =~= Seq::<Seq<char>>::empty());
            assert(views(r.ntp_servers@) =~= Seq::<Seq<char>>::empty());
            assert(addresses(r.ntp_associations@) =~= Seq::<Seq<char>>::empty());
        }
        r
    }

    /// Enters mode `m` and renders its prompt.
    pub fn set_mode(&mut self, m: Mode)
        ensures
            moved(*old(self), *final(self), m),
    {
        self.prompt = render_prompt(&self.config.hostname, m);
        self.current_mode = m;
    }

    /// The credentials that `enable` must read, or `None` where nothing is stored.
    pub fn auth_requirement(&self) -> (r: Option<AuthRequirement>)
        ensures
            r == requirement_of(self.config),
    {
        match (&self.config.password_hash, &self.config.secret_hash) {
            (None, None) => None,
            (Some(_), None) => Some(AuthRequirement::Password),
            (None, Some(_)) => Some(AuthRequirement::Secret),
            (Some(_), Some(_)) => Some(AuthRequirement::Both),
        }
    }

    /// Finishes `enable` with the hashes of what the user typed: enters privileged mode when
    /// every stored credential is matched, and otherwise fails and stays in user mode.
    pub fn complete_enable(&mut self, password: Option<String>, secret: Option<String>) -> (r:
        Result<Outcome, CliError>)
        ensures
            enable_completed(*old(self), password, secret, *final(self), r),
    {
        if self.current_mode != Mode::UserMode {
            return Err(
                CliError::ModeMismatch {
                    command: CommandKind::Enable,
                    permitted: crate::mode::ModeSet {
                        user: true,
                        privileged: false,
                        config: false,
                        interface: false,
                    },
                },
            );
        }
        let pw_ok = match (&password, &self.config.password_hash) {
            (Some(p), Some(s)) => str_eq(p.as_str(), s.as_str()),
            _ => false,
        };
        let secret_ok = match (&secret, &self.config.secret_hash) {
            (Some(p), Some(s)) => str_eq(p.as_str(), s.as_str()),
            _ => false,
        };
        match self.auth_requirement() {
            None => {
                self.set_mode(Mode::PrivilegedMode);
                Ok(Outcome::Notice(Notice::EnteredPrivileged))
            },
            Some(AuthRequirement::Password) => {
                if pw_ok {
                    self.set_mode(Mode::PrivilegedMode);
                    Ok(Outcome::Notice(Notice::EnteredPrivileged))
                } else {
                    Err(CliError::Auth(AuthFailure::IncorrectPassword))
                }
            },
            Some(AuthRequirement::Secret) => {
                if secret_ok {
                    self.set_mode(Mode::PrivilegedMode);
                    Ok(Outcome::Notice(Notice::EnteredPrivileged))
                } else {
                    Err(CliError::Auth(AuthFailure::IncorrectSecret))
                }
            },
            Some(AuthRequirement::Both) => {
                if pw_ok && secret_ok {
                    self.set_mode(Mode::PrivilegedMode);
                    Ok(Outcome::Notice(Notice::EnteredPrivileged))
                } else {
                    Err(CliError::Auth(AuthFailure::IncorrectPasswordOrSecret))
                }
            },
        }
    }

    /// Stores a credential set by `enable password` or `enable secret`: its hash for
    /// comparison and its clear text for display.
    pub fn store_credential(&mut self, which: Credential, clear: String, hashed: String) -> (r:
        Outcome)
        ensures
            r == Outcome::Notice(Notice::CredentialSet(which)),
            *final(self) == with_credential(*old(self), which, clear, hashed),
    {
        match which {
            Credential::Password => {
                self.config.enable_password = Some(clear);
                self.config.password_hash = Some(hashed);
            },
            Credential::Secret => {
                self.config.enable_secret = Some(clear);
                self.config.secret_hash = Some(hashed);
            },
        }
        Outcome::Notice(Notice::CredentialSet(which))
    }
}

/// `new` holds `v` under `name`: in place where `old` had an entry of that name, appended
/// where not.
pub open spec fn entry_stored<V>(old: Seq<(String, V)>, new: Seq<(String, V)>, name: Seq<char>, v: V) -> bool {
    if names_of(old).contains(name) {
        exists|i: int|
            0 <= i < old.len() && old[i].0@ == name && new == old.update(i, (new[i].0, v))
                && new[i].0@ == name
    } else {
        new.drop_last() == old && new.len() == old.len() + 1 && new.last().0@ == name
            && new.last().1 == v
    }
}

/// `new` is `old` without its entry named `name`, if it had one.
pub open spec fn entry_removed<V>(old: Seq<(String, V)>, new: Seq<(String, V)>, name: Seq<char>) -> bool {
    if names_of(old).contains(name) {
        exists|i: int| 0 <= i < old.len() && old[i].0@ == name && new == old.remove(i)
    } else {
        new == old
    }
}

/// The session after a run plan's programs all succeeded.
pub open spec fn updated(old: CliContext, u: StateUpdate, new: CliContext) -> bool {
    match u {
        StateUpdate::SetAddress { interface, address } => {
            &&& entry_stored(old.interface_addresses@, new.interface_addresses@, interface@, address)
            &&& new == CliContext { interface_addresses: new.interface_addresses, ..old }
        },
        StateUpdate::RemoveAddress { interface } => {
            &&& entry_removed(old.interface_addresses@, new.interface_addresses@, interface@)
            &&& new == CliContext { interface_addresses: new.interface_addresses, ..old }
        },
        StateUpdate::SetUp { interface, up } => {
            &&& entry_stored(old.interface_up@, new.interface_up@, interface@, up)
            &&& new == CliContext { interface_up: new.interface_up, ..old }
        },
    }
}

fn index_of_name<V>(list: &Vec<(String, V)>, name: &String) -> (r: Option<usize>)
    ensures
        r is None <==> !names_of(list@).contains(name@),
        r matches Some(i) ==> i < list@.len() && list@[i as int].0@ == name@,
{
    let mut i: usize = 0;
    while i < list.len()
        invariant
            i <= list@.len(),
            forall|j: int| 0 <= j < i ==> names_of(list@)[j] != name@,
        decreases list@.len() - i,
    {
        if str_eq(list[i].0.as_str(), name.as_str()) {
            proof {
                assert(names_of(list@)[i as int] == name@);
            }
            return Some(i);
        }
        i = i + 1;
    }
    None
}

fn store_entry<V>(list: &mut Vec<(String, V)>, name: String, v: V)
    requires
        distinct_texts(names_of(old(list)@)),
    ensures
        distinct_texts(names_of(final(list)@)),
        entry_stored(old(list)@, final(list)@, name@, v),
{
    match index_of_name(list, &name) {
        Some(i) => {
            let ghost before = names_of(list@);
            list.set(i, (name, v));
            proof {
                assert(names_of(list@) =~= before);
            }
        },
        None => {
            let ghost before = names_of(list@);
            list.push((name, v));
            proof {
                assert(names_of(list@) =~= before.push(name@));
                assert(list@.drop_last() =~= old(list)@);
            }
        },
    }
}

fn remove_entry<V>(list: &mut Vec<(String, V)>, name: &String)
    requires
        distinct_texts(names_of(old(list)@)),
    ensures
        distinct_texts(names_of(final(list)@)),
        entry_removed(old(list)@, final(list)@, name@),
{
    match index_of_name(list, name) {
        Some(i) => {
            let ghost before = names_of(list@);
            list.remove(i);
            proof {
                assert(names_of(list@) =~= before.remove(i as int));
            }
        },
        None => {},
    }
}

impl CliContext {
    /// Records what a run plan changed once all its programs succeeded.
    pub fn apply_update(&mut self, u: StateUpdate)
        requires
            old(self).wf(),
        ensures
            final(self).wf(),
            updated(*old(self), u, *final(self)),
    {
        match u {
            StateUpdate::SetAddress { interface, address } => {
                store_entry(&mut self.interface_addresses, interface, address);
            },
            StateUpdate::RemoveAddress { interface } => {
                remove_entry(&mut self.interface_addresses, &interface);
            },
            StateUpdate::SetUp { interface, up } => {
                store_entry(&mut self.interface_up, interface, up);
            },
        }
    }
}

} // verus!
