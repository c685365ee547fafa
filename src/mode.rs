use vstd::prelude::*;

verus! {

/// The four hierarchical modes of the shell. Exactly one is active per session.
#[derive(Clone, Copy, Debug, PartialEq, Eq, Structural)]
pub enum Mode {
    UserMode,
    PrivilegedMode,
    ConfigMode,
    InterfaceMode,
}

/// The suffix that follows the hostname in the prompt of each mode.
pub open spec fn prompt_suffix(m: Mode) -> Seq<char> {
    match m {
        Mode::UserMode => ">"@,
        Mode::PrivilegedMode => "#"@,
        Mode::ConfigMode => "(config)#"@,
        Mode::InterfaceMode => "(config-if)#"@,
    }
}

/// The prompt shown for `hostname` in mode `m`.
pub open spec fn prompt_of(hostname: Seq<char>, m: Mode) -> Seq<char> {
    hostname + prompt_suffix(m)
}

/// Renders the prompt for `hostname` in mode `m`.
pub fn render_prompt(hostname: &String, m: Mode) -> (r: String)
    ensures
        r@ == prompt_of(hostname@, m),
{
    let suffix: &str = match m {
        Mode::UserMode => ">",
        Mode::PrivilegedMode => "#",
        Mode::ConfigMode => "(config)#",
        Mode::InterfaceMode => "(config-if)#",
    };
    hostname.clone().concat(suffix)
}

/// A set of modes, one flag per mode: the modes in which a command may run.
#[derive(Clone, Copy, Debug, PartialEq, Eq, Structural)]
pub struct ModeSet {
    pub user: bool,
    pub privileged: bool,
    pub config: bool,
    pub interface: bool,
}

impl ModeSet {
    pub open spec fn has(self, m: Mode) -> bool {
        match m {
            Mode::UserMode => self.user,
            Mode::PrivilegedMode => self.privileged,
            Mode::ConfigMode => self.config,
            Mode::InterfaceMode => self.interface,
        }
    }

    /// Whether `m` is in the set.
    pub fn contains(&self, m: Mode) -> (r: bool)
        ensures
            r == self.has(m),
    {
        match m {
            Mode::UserMode => self.user,
            Mode::PrivilegedMode => self.privileged,
            Mode::ConfigMode => self.config,
            Mode::InterfaceMode => self.interface,
        }
    }
}

pub open spec fn modes(user: bool, privileged: bool, config: bool, interface: bool) -> ModeSet {
    ModeSet { user, privileged, config, interface }
}

pub open spec fn every_mode() -> ModeSet {
    modes(true, true, true, true)
}

} // verus!
