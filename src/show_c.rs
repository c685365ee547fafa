use vstd::prelude::*;

use crate::context::CliContext;
use crate::dispatch::{strings, word_seq};
use crate::network_config::NtpAssociation;
use crate::outcome::{Notice, Outcome, ProcessCall};
use crate::run_config::{get_running_config, running_config_text};
use crate::text::{decimal, decimal_string, views};

verus! {

/// Shows the clock where one is present.
pub fn show_clock(clock_available: bool) -> (r: Outcome)
    ensures
        r == (if clock_available {
            Outcome::ShowClock
        } else {
            Outcome::Notice(Notice::ClockUnavailable)
        }),
{
    if clock_available {
        Outcome::ShowClock
    } else {
        Outcome::Notice(Notice::ClockUnavailable)
    }
}

/// Shows the time since boot where a clock is present.
pub fn show_uptime(clock_available: bool) -> (r: Outcome)
    ensures
        r == (if clock_available {
            Outcome::ShowUptime
        } else {
            Outcome::Notice(Notice::ClockUnavailable)
        }),
{
    if clock_available {
        Outcome::ShowUptime
    } else {
        Outcome::Notice(Notice::ClockUnavailable)
    }
}

/// The version line of this shell.
pub fn show_version() -> (r: String)
    ensures
        r@ == "PNF_MPC_CLI_Version --> '1.0.0'"@,
{
    "PNF_MPC_CLI_Version --> '1.0.0'".to_owned()
}

fn call(program: &str, args: Vec<&str>) -> (r: ProcessCall)
    ensures
        r.program@ == program@,
        views(r.args@) == word_seq(args@),
{
    ProcessCall { program: program.to_owned(), args: strings(args) }
}

/// The program that lists the logged-in sessions.
pub fn show_sessions() -> (r: ProcessCall)
    ensures
        r.is("sudo"@, seq!["w"@]),
{
    let r = call("sudo", vec!["w"]);
    proof {
        assert(views(r.args@) =~= seq!["w"@]);
    }
    r
}

/// The program that describes the network controllers.
pub fn show_controllers() -> (r: ProcessCall)
    ensures
        r.is("sudo"@, seq!["lshw"@, "-class"@, "network"@]),
{
    let r = call("sudo", vec!["lshw", "-class", "network"]);
    proof {
        assert(views(r.args@) =~= seq!["lshw"@, "-class"@, "network"@]);
    }
    r
}

/// The program that lists the interfaces.
pub fn show_interfaces() -> (r: ProcessCall)
    ensures
        r.is("ls"@, seq!["/sys/class/net"@]),
{
    let r = call("ls", vec!["/sys/class/net"]);
    proof {
        assert(views(r.args@) =~= seq!["/sys/class/net"@]);
    }
    r
}

/// The program that summarises the interfaces and their addresses.
pub fn show_ip_int_br() -> (r: ProcessCall)
    ensures
        r.is("ip"@, seq!["a"@]),
{
    let r = call("ip", vec!["a"]);
    proof {
        assert(views(r.args@) =~= seq!["a"@]);
    }
    r
}

/// The program that prints the routing table.
pub fn show_ip_route() -> (r: ProcessCall)
    ensures
        r.is("ip"@, seq!["route"@]),
{
    let r = call("ip", vec!["route"]);
    proof {
        assert(views(r.args@) =~= seq!["route"@]);
    }
    r
}

/// The program that lists recent logins.
pub fn show_login() -> (r: ProcessCall)
    ensures
        r.is("sudo"@, seq!["last"@]),
{
    let r = call("sudo", vec!["last"]);
    proof {
        assert(views(r.args@) =~= seq!["last"@]);
    }
    r
}

/// The program that describes the processors.
pub fn show_proc() -> (r: ProcessCall)
    ensures
        r.is("sudo"@, seq!["lscpu"@]),
{
    let r = call("sudo", vec!["lscpu"]);
    proof {
        assert(views(r.args@) =~= seq!["lscpu"@]);
    }
    r
}

/// The lines of `show running-config`.
pub open spec fn run_conf_text(c: CliContext) -> Seq<Seq<char>> {
    seq![
        "Building configuration..."@,
        ""@,
        "Current configuration : 0 bytes"@,
        ""@,
        running_config_text(c),
    ]
}

/// The running configuration under its header.
pub fn show_run_conf(context: &CliContext) -> (r: Vec<String>)
    ensures
        views(r@) == run_conf_text(*context),
{
    let mut lines = strings(
        vec!["Building configuration...", "", "Current configuration : 0 bytes", ""],
    );
    let ghost head = views(lines@);
    proof {
        assert(head =~= seq![
            "Building configuration..."@,
            ""@,
            "Current configuration : 0 bytes"@,
            ""@,
        ]);
    }
    let text = get_running_config(context);
    lines.push(text);
    proof {
        assert(views(lines@) =~= head.push(text@));
        assert(views(lines@) =~= run_conf_text(*context));
    }
    lines
}

pub open spec fn enabled_text(b: bool) -> Seq<char> {
    if b {
        "Enabled"@
    } else {
        "Disabled"@
    }
}

pub open spec fn key_line(e: (u32, String)) -> Seq<char> {
    "Key "@ + decimal(e.0 as nat) + ": "@ + e.1@
}

pub open spec fn trusted_line(k: u32) -> Seq<char> {
    "Trusted Key "@ + decimal(k as nat)
}

/// The lines of `show ntp`: master and authentication state, then the keys and the trusted
/// keys where there are any.
pub open spec fn ntp_status_text(c: CliContext) -> Seq<Seq<char>> {
    let keys = c.ntp_authentication_keys@;
    let trusted = c.ntp_trusted_keys@;
    seq![
        "NTP Master: "@ + enabled_text(c.ntp_master),
        "NTP Authentication: "@ + enabled_text(c.ntp_authentication_enabled),
    ] + (if keys.len() > 0 {
        seq!["NTP Authentication Keys:"@] + keys.map_values(|e: (u32, String)| key_line(e))
    } else {
        Seq::empty()
    }) + (if trusted.len() > 0 {
        seq!["NTP Trusted Keys:"@] + trusted.map_values(|k: u32| trusted_line(k))
    } else {
        Seq::empty()
    })
}

fn enabled_str(b: bool) -> (r: &'static str)
    ensures
        r@ == enabled_text(b),
{
    if b {
        "Enabled"
    } else {
        "Disabled"
    }
}

/// The NTP settings of the session.
pub fn show_ntp(context: &CliContext) -> (r: Vec<String>)
    ensures
        views(r@) == ntp_status_text(*context),
{
    let mut lines: Vec<String> = Vec::new();
    lines.push("NTP Master: ".to_owned().concat(enabled_str(context.ntp_master)));
    lines.push(
        "NTP Authentication: ".to_owned().concat(enabled_str(context.ntp_authentication_enabled)),
    );
    let keys = &context.ntp_authentication_keys;
    let trusted = &context.ntp_trusted_keys;
    let ghost base = seq![
        "NTP Master: "@ + enabled_text(context.ntp_master),
        "NTP Authentication: "@ + enabled_text(context.ntp_authentication_enabled),
    ];
    proof {
        assert(views(lines@) =~= base);
    }
    let ghost with_keys = base + (if keys@.len() > 0 {
        seq!["NTP Authentication Keys:"@] + keys@.map_values(|e: (u32, String)| key_line(e))
    } else {
        Seq::empty()
    });
    if keys.len() > 0 {
        lines.push("NTP Authentication Keys:".to_owned());
        let ghost start = views(lines@);
        let mut i: usize = 0;
        while i < keys.len()
            invariant
                i <= keys@.len(),
                views(lines@) == start + keys@.take(i as int).map_values(
                    |e: (u32, String)| key_line(e),
                ),
            decreases keys@.len() - i,
        {
            let line = "Key ".to_owned().concat(decimal_string(keys[i].0 as u64).as_str()).concat(
                ": ",
            ).concat(keys[i].1.as_str());
            let ghost before = views(lines@);
            lines.push(line);
            proof {
                assert(views(lines@) =~= before.push(line@));
                assert(keys@.take(i + 1).map_values(|e: (u32, String)| key_line(e))
                    =~= keys@.take(i as int).map_values(|e: (u32, String)| key_line(e)).push(
                    key_line(keys@[i as int]),
                ));
            }
            i = i + 1;
        }
        proof {
            assert(keys@.take(keys@.len() as int) =~= keys@);
        }
    }
    proof {
        assert(views(lines@) =~= with_keys);
    }
    if trusted.len() > 0 {
        lines.push("NTP Trusted Keys:".to_owned());
        let ghost start = views(lines@);
        let mut i: usize = 0;
        while i < trusted.len()
            invariant
                i <= trusted@.len(),
                views(lines@) == start + trusted@.take(i as int).map_values(
                    |k: u32| trusted_line(k),
                ),
            decreases trusted@.len() - i,
        {
            let line = "Trusted Key ".to_owned().concat(
                decimal_string(trusted[i] as u64).as_str(),
            );
            let ghost before = views(lines@);
            lines.push(line);
            proof {
                assert(views(lines@) =~= before.push(line@));
                assert(trusted@.take(i + 1).map_values(|k: u32| trusted_line(k))
                    =~= trusted@.take(i as int).map_values(|k: u32| trusted_line(k)).push(
                    trusted_line(trusted@[i as int]),
                ));
            }
            i = i + 1;
        }
        proof {
            assert(trusted@.take(trusted@.len() as int) =~= trusted@);
        }
    }
    proof {
        assert(views(lines@) =~= ntp_status_text(*context));
    }
    lines
}

/// Two decimal digits of `n`, below one hundred.
pub open spec fn two_digits(n: nat) -> Seq<char> {
    if n < 10 {
        "0"@ + decimal(n)
    } else {
        decimal(n)
    }
}

pub open spec fn magnitude(v: int) -> nat {
    if v < 0 {
        (-v) as nat
    } else {
        v as nat
    }
}

/// A count of hundredths written with two decimals, as `{:.2}` writes the number it stands for.
pub open spec fn fixed2(v: int) -> Seq<char> {
    (if v < 0 {
        "-"@
    } else {
        Seq::empty()
    }) + decimal(magnitude(v) / 100) + "."@ + two_digits(magnitude(v) % 100)
}

/// Writes a count of hundredths with two decimals.
pub fn fixed2_string(v: i32) -> (r: String)
    ensures
        r@ == fixed2(v as int),
{
    let m: u64 = if v < 0 {
        (-(v as i64)) as u64
    } else {
        v as u64
    };
    let frac = m % 100;
    let frac_text = if frac < 10 {
        "0".to_owned().concat(decimal_string(frac).as_str())
    } else {
        decimal_string(frac)
    };
    let sign = if v < 0 {
        "-".to_owned()
    } else {
        String::new()
    };
    sign.concat(decimal_string(m / 100).as_str()).concat(".").concat(frac_text.as_str())
}

/// One line of the association table.
pub open spec fn association_line(a: NtpAssociation) -> Seq<char> {
    " ~"@ + a.address@ + "       "@ + a.ref_clock@ + "          "@ + decimal(a.st as nat)
        + "   "@ + a.when@ + "        "@ + decimal(a.poll as nat) + "      "@ + decimal(
        a.reach as nat,
    ) + "      "@ + fixed2(a.delay as int) + "           "@ + fixed2(a.offset as int)
        + "              "@ + fixed2(a.disp as int)
}

pub open spec fn association_header() -> Seq<char> {
    "address         ref clock       st   when     poll    reach  delay          offset            disp"@
}

pub open spec fn association_legend() -> Seq<char> {
    " * sys.peer, # selected, + candidate, - outlyer, x falseticker, ~ configured"@
}

/// The lines of `show ntp associations`: a table with one line per association in order,
/// or a note that there are none.
pub open spec fn associations_text(c: CliContext) -> Seq<Seq<char>> {
    let list = c.ntp_associations@;
    if list.len() == 0 {
        seq!["No NTP associations configured."@]
    } else {
        seq![association_header()] + list.map_values(|a: NtpAssociation| association_line(a))
            + seq![association_legend()]
    }
}

fn association_string(a: &NtpAssociation) -> (r: String)
    ensures
        r@ == association_line(*a),
{
    " ~".to_owned().concat(a.address.as_str()).concat("       ").concat(
        a.ref_clock.as_str(),
    ).concat("          ").concat(decimal_string(a.st as u64).as_str()).concat("   ").concat(
        a.when.as_str(),
    ).concat("        ").concat(decimal_string(a.poll as u64).as_str()).concat("      ").concat(
        decimal_string(a.reach as u64).as_str(),
    ).concat("      ").concat(fixed2_string(a.delay).as_str()).concat("           ").concat(
        fixed2_string(a.offset).as_str(),
    ).concat("              ").concat(fixed2_string(a.disp).as_str())
}

/// The NTP associations of the session as a table.
pub fn show_ntp_asso(context: &CliContext) -> (r: Vec<String>)
    ensures
        views(r@) == associations_text(*context),
{
    let list = &context.ntp_associations;
    let mut lines: Vec<String> = Vec::new();
    if list.len() == 0 {
        lines.push("No NTP associations configured.".to_owned());
        proof {
            assert(views(lines@) =~= associations_text(*context));
        }
        return lines;
    }
    lines.push(
        "address         ref clock       st   when     poll    reach  delay          offset            disp".to_owned(),
    );
    let ghost start = views(lines@);
    let mut i: usize = 0;
    while i < list.len()
        invariant
            i <= list@.len(),
            views(lines@) == start + list@.take(i as int).map_values(
                |a: NtpAssociation| association_line(a),
            ),
        decreases list@.len() - i,
    {
        let line = association_string(&list[i]);
        let ghost before = views(lines@);
        lines.push(line);
        proof {
            assert(views(lines@) =~= before.push(line@));
            assert(list@.take(i + 1).map_values(|a: NtpAssociation| association_line(a))
                =~= list@.take(i as int).map_values(|a: NtpAssociation| association_line(a)).push(
                association_line(list@[i as int]),
            ));
        }
        i = i + 1;
    }
    let ghost body = views(lines@);
    lines.push(
        " * sys.peer, # selected, + candidate, - outlyer, x falseticker, ~ configured".to_owned(),
    );
    proof {
        assert(list@.take(list@.len() as int) =~= list@);
        assert(views(lines@) =~= body.push(association_legend()));
        assert(views(lines@) =~= associations_text(*context));
    }
    lines
}

} // verus!
