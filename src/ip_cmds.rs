use vstd::prelude::*;

use crate::context::{addresses, CliContext, Env};
use crate::dispatch::{
    arg_is, contains_text, fails, no_lines, one_line, push_text, run_one, runs_one_noted, strings,
};
use crate::errors::{CliError, Usage};
use crate::network_config::{cidr_text, ip_with_cidr, is_ipv4_addr, is_ipv4_text};
use crate::ntp::{association_removed, text_removed};
use crate::outcome::{Notice, Outcome, ProcessCall, RunPlan, StateUpdate};
use crate::text::views;

verus! {

/// The shell command that writes a Netplan file giving `interface` the address `cidr`.
pub open spec fn netplan_command(interface: Seq<char>, cidr: Seq<char>) -> Seq<char> {
    "echo 'network:\n  ethernets:\n    "@ + interface + ":\n      dhcp4: no\n      addresses:\n        - "@
        + cidr
        + "\n      nameservers:\n        addresses: [8.8.8.8, 8.8.4.4]' | sudo tee /etc/netplan/*.yaml"@
}

/// `r` brings `interface` up with `ip`/`mask`, records the address in Netplan, reports
/// it, and then stores the bare address `ip` for the interface in the session.
pub open spec fn configures_address(
    r: Result<Outcome, CliError>,
    interface: Seq<char>,
    ip: Seq<char>,
    mask: Seq<char>,
) -> bool {
    let cidr = cidr_text(ip, mask);
    &&& r matches Ok(Outcome::Run(plan))
    &&& plan.calls@.len() == 2
    &&& plan.calls@[0].is(
        "sudo"@,
        seq!["ifconfig"@, interface, ip, "netmask"@, mask, "up"@],
    )
    &&& plan.calls@[1].is("sh"@, seq!["-c"@, netplan_command(interface, cidr)])
    &&& plan.update matches Some(StateUpdate::SetAddress { interface: i, address: a })
    &&& i@ == interface
    &&& a@ == ip
    &&& plan.notes(
        Seq::empty(),
        seq!["IP address "@ + cidr + " is configured to the interface "@ + interface],
    )
}

/// `r` adds (where `adding`) or deletes a static route, once the destination, the mask, the
/// exit interface and the next hop are valid.
pub open spec fn route_result(
    env: Env,
    ip: Seq<char>,
    mask: Seq<char>,
    exit: Seq<char>,
    hop: Seq<char>,
    adding: bool,
    r: Result<Outcome, CliError>,
) -> bool {
    let cidr = cidr_text(ip, mask);
    if !is_ipv4_text(ip) {
        r matches Err(CliError::InvalidAddress(x)) && x@ == ip
    } else if !is_ipv4_text(mask) {
        r == Err::<Outcome, CliError>(CliError::InvalidSubnetMask)
    } else if env.interface_error is Some {
        r matches Err(CliError::Collaborator(x)) && x@ == env.interface_error->0@
    } else if !views(env.interfaces@).contains(exit) {
        &&& r matches Err(CliError::UnknownInterface { name, available })
        &&& name@ == exit
        &&& views(available@) == views(env.interfaces@)
    } else if !is_ipv4_text(hop) {
        r matches Err(CliError::InvalidAddress(x)) && x@ == hop
    } else if adding {
        runs_one_noted(
            r,
            "sudo"@,
            seq!["ip"@, "route"@, "add"@, cidr, "via"@, hop, "dev"@, exit],
            seq!["Adding route to "@ + cidr + " via "@ + hop + " on interface "@ + exit],
            seq!["Route added successfully"@],
        )
    } else {
        runs_one_noted(
            r,
            "sudo"@,
            seq!["ip"@, "route"@, "del"@, cidr, "via"@, hop, "dev"@, exit],
            seq!["Deleting route to "@ + cidr + " via "@ + hop + " on interface "@ + exit],
            seq!["Route deleted successfully"@],
        )
    }
}

/// `r` is the result of configuring `ip`/`mask` on `interface`: an error for a malformed
/// address or mask, otherwise the plan.
pub open spec fn address_result(
    r: Result<Outcome, CliError>,
    interface: Seq<char>,
    ip: Seq<char>,
    mask: Seq<char>,
) -> bool {
    if !is_ipv4_text(ip) {
        r matches Err(CliError::InvalidAddress(x)) && x@ == ip
    } else if !is_ipv4_text(mask) {
        r == Err::<Outcome, CliError>(CliError::InvalidSubnetMask)
    } else {
        configures_address(r, interface, ip, mask)
    }
}

/// The contract of `ip address` and `ip route`; neither changes the session until its
/// programs have run.
pub open spec fn ip_result(c: CliContext, a: Seq<Seq<char>>, env: Env, r: Result<Outcome, CliError>) -> bool {
    if a.len() == 0 {
        r == fails(Usage::Ip)
    } else if a[0] == "address"@ {
        if a.len() == 1 {
            runs_one_noted(r, "ip"@, seq!["a"@], seq!["Interface details"@], Seq::empty())
        } else if a.len() == 3 {
            match c.selected_interface {
                None => r == Err::<Outcome, CliError>(CliError::NoInterfaceSelected),
                Some(i) => address_result(r, i@, a[1], a[2]),
            }
        } else {
            r == fails(Usage::IpAddress)
        }
    } else if a[0] == "route"@ {
        if a.len() < 5 {
            r == fails(Usage::IpRoute)
        } else {
            route_result(env, a[1], a[2], a[3], a[4], true, r)
        }
    } else {
        r == fails(Usage::Ip)
    }
}

fn route(env: &Env, ip: &String, mask: &String, exit: &String, hop: &String, adding: bool) -> (r:
    Result<Outcome, CliError>)
    ensures
        route_result(*env, ip@, mask@, exit@, hop@, adding, r),
{
    if !is_ipv4_addr(ip.as_str()) {
        return Err(CliError::InvalidAddress(ip.clone()));
    }
    let cidr = match ip_with_cidr(ip.as_str(), mask.as_str()) {
        Ok(t) => t,
        Err(_) => {
            return Err(CliError::InvalidSubnetMask);
        },
    };
    if let Some(e) = &env.interface_error {
        return Err(CliError::Collaborator(e.clone()));
    }
    if !contains_text(&env.interfaces, exit) {
        return Err(CliError::UnknownInterface { name: exit.clone(), available: env.interfaces.clone() });
    }
    if !is_ipv4_addr(hop.as_str()) {
        return Err(CliError::InvalidAddress(hop.clone()));
    }
    let verb = if adding {
        "add"
    } else {
        "del"
    };
    let mut v = strings(vec!["ip", "route"]);
    proof {
        assert(views(v@) =~= seq!["ip"@, "route"@]);
    }
    push_text(&mut v, verb.to_owned());
    push_text(&mut v, cidr.clone());
    push_text(&mut v, "via".to_owned());
    push_text(&mut v, hop.clone());
    push_text(&mut v, "dev".to_owned());
    push_text(&mut v, exit.clone());
    proof {
        assert(views(v@) =~= seq!["ip"@, "route"@, verb@, cidr_text(ip@, mask@), "via"@, hop@, "dev"@, exit@]);
    }
    let opening = if adding {
        "Adding route to "
    } else {
        "Deleting route to "
    };
    let closing = if adding {
        "Route added successfully"
    } else {
        "Route deleted successfully"
    };
    let before = one_line(
        opening.to_owned().concat(cidr.as_str()).concat(" via ").concat(hop.as_str()).concat(
            " on interface ",
        ).concat(exit.as_str()),
    );
    Ok(run_one("sudo", v, before, one_line(closing.to_owned())))
}

fn configure_address(interface: &String, ip: &String, mask: &String) -> (r: Result<Outcome, CliError>)
    ensures
        address_result(r, interface@, ip@, mask@),
{
    if !is_ipv4_addr(ip.as_str()) {
        return Err(CliError::InvalidAddress(ip.clone()));
    }
    let cidr = match ip_with_cidr(ip.as_str(), mask.as_str()) {
        Ok(t) => t,
        Err(_) => {
            return Err(CliError::InvalidSubnetMask);
        },
    };
    let mut up = strings(vec!["ifconfig"]);
    proof {
        assert(views(up@) =~= seq!["ifconfig"@]);
    }
    push_text(&mut up, interface.clone());
    push_text(&mut up, ip.clone());
    push_text(&mut up, "netmask".to_owned());
    push_text(&mut up, mask.clone());
    push_text(&mut up, "up".to_owned());
    proof {
        assert(views(up@) =~= seq!["ifconfig"@, interface@, ip@, "netmask"@, mask@, "up"@]);
    }
    let content = "echo 'network:\n  ethernets:\n    ".to_owned().concat(interface.as_str()).concat(
        ":\n      dhcp4: no\n      addresses:\n        - ",
    ).concat(cidr.as_str()).concat(
        "\n      nameservers:\n        addresses: [8.8.8.8, 8.8.4.4]' | sudo tee /etc/netplan/*.yaml",
    );
    let mut write = strings(vec!["-c"]);
    proof {
        assert(views(write@) =~= seq!["-c"@]);
    }
    push_text(&mut write, content);
    let after = one_line(
        "IP address ".to_owned().concat(cidr.as_str()).concat(" is configured to the interface ").concat(
            interface.as_str(),
        ),
    );
    proof {
        assert(views(write@) =~= seq!["-c"@, netplan_command(interface@, cidr@)]);
    }
    let calls = vec![
        ProcessCall { program: "sudo".to_owned(), args: up },
        ProcessCall { program: "sh".to_owned(), args: write },
    ];
    Ok(
        Outcome::Run(
            RunPlan {
                calls,
                update: Some(StateUpdate::SetAddress { interface: interface.clone(), address: ip.clone() }),
                before: no_lines(),
                after,
            },
        ),
    )
}

/// Runs `ip address` or `ip route`.
pub fn ip(ctx: &CliContext, args: &Vec<String>, env: &Env) -> (r: Result<Outcome, CliError>)
    ensures
        ip_result(*ctx, views(args@), *env, r),
{
    let n = args.len();
    if n == 0 {
        return Err(CliError::Usage(Usage::Ip));
    }
    proof {
        assert(forall|i: int| 0 <= i < n ==> #[trigger] views(args@)[i] == args@[i]@);
    }
    if arg_is(args, 0, "address") {
        if n == 1 {
            let v = strings(vec!["a"]);
            proof {
                assert(views(v@) =~= seq!["a"@]);
            }
            Ok(run_one("ip", v, one_line("Interface details".to_owned()), no_lines()))
        } else if n == 3 {
            match &ctx.selected_interface {
                None => Err(CliError::NoInterfaceSelected),
                Some(i) => configure_address(i, &args[1], &args[2]),
            }
        } else {
            Err(CliError::Usage(Usage::IpAddress))
        }
    } else if arg_is(args, 0, "route") {
        if n < 5 {
            Err(CliError::Usage(Usage::IpRoute))
        } else {
            route(env, &args[1], &args[2], &args[3], &args[4], true)
        }
    } else {
        Err(CliError::Usage(Usage::Ip))
    }
}

/// The plan that sets the selected interface down or up.
pub open spec fn sets_link(r: Result<Outcome, CliError>, c: CliContext, up: bool) -> bool {
    match c.selected_interface {
        None => r == Err::<Outcome, CliError>(CliError::NoInterfaceSelected),
        Some(i) => {
            &&& r matches Ok(Outcome::Run(plan))
            &&& plan.update matches Some(StateUpdate::SetUp { interface: n, up: u })
            &&& n@ == i@
            &&& u == up
            &&& plan.notes(
                Seq::empty(),
                seq!["interface "@ + i@ + " is set to "@ + (if up { "up"@ } else { "down"@ })],
            )
            &&& if up {
                &&& plan.calls@.len() == 2
                &&& plan.calls@[0].is("sudo"@, seq!["ip"@, "link"@, "set"@, i@, "up"@])
                &&& plan.calls@[1].is("sudo"@, seq!["netplan"@, "apply"@])
            } else {
                &&& plan.calls@.len() == 1
                &&& plan.calls@[0].is("sudo"@, seq!["ip"@, "link"@, "set"@, i@, "down"@])
            }
        },
    }
}

fn set_link(ctx: &CliContext, up: bool) -> (r: Result<Outcome, CliError>)
    ensures
        sets_link(r, *ctx, up),
{
    match &ctx.selected_interface {
        None => Err(CliError::NoInterfaceSelected),
        Some(i) => {
            let mut v = strings(vec!["ip", "link", "set"]);
            proof {
                assert(views(v@) =~= seq!["ip"@, "link"@, "set"@]);
            }
            push_text(&mut v, i.clone());
            push_text(&mut v, if up { "up".to_owned() } else { "down".to_owned() });
            proof {
                assert(views(v@) =~= seq!["ip"@, "link"@, "set"@, i@, (if up { "up"@ } else { "down"@ })]);
            }
            let mut calls = vec![ProcessCall { program: "sudo".to_owned(), args: v }];
            if up {
                let apply = strings(vec!["netplan", "apply"]);
                proof {
                    assert(views(apply@) =~= seq!["netplan"@, "apply"@]);
                }
                calls.push(ProcessCall { program: "sudo".to_owned(), args: apply });
            }
            let after = one_line(
                "interface ".to_owned().concat(i.as_str()).concat(" is set to ").concat(
                    if up {
                        "up"
                    } else {
                        "down"
                    },
                ),
            );
            Ok(
                Outcome::Run(
                    RunPlan {
                        calls,
                        update: Some(StateUpdate::SetUp { interface: i.clone(), up }),
                        before: no_lines(),
                        after,
                    },
                ),
            )
        },
    }
}

/// Runs `shutdown` on the selected interface.
pub fn shutdown(ctx: &CliContext) -> (r: Result<Outcome, CliError>)
    ensures
        sets_link(r, *ctx, false),
{
    set_link(ctx, false)
}

/// The contract of `no`: it undoes `shutdown`, `ntp server`, `ip route` and `ip address`.
pub open spec fn no_post(
    old: CliContext,
    a: Seq<Seq<char>>,
    env: Env,
    new: CliContext,
    r: Result<Outcome, CliError>,
) -> bool {
    if a.len() == 1 && a[0] == "shutdown"@ {
        new == old && sets_link(r, old, true)
    } else if a.len() == 3 && a[0] == "ntp"@ && a[1] == "server"@ {
        if views(old.ntp_servers@).contains(a[2]) {
            &&& r matches Ok(Outcome::Notice(Notice::NtpServerRemoved(x)))
            &&& x@ == a[2]
            &&& text_removed(old.ntp_servers@, new.ntp_servers@, a[2])
            &&& association_removed(old.ntp_associations@, new.ntp_associations@, a[2])
            &&& new == CliContext {
                ntp_servers: new.ntp_servers,
                ntp_associations: new.ntp_associations,
                ..old
            }
        } else {
            new == old && (r matches Err(CliError::NtpServerNotFound(x)) && x@ == a[2])
        }
    } else if a.len() >= 2 && a[0] == "ip"@ && a[1] == "route"@ {
        &&& new == old
        &&& if a.len() < 6 {
            r == fails(Usage::IpRoute)
        } else {
            route_result(env, a[2], a[3], a[4], a[5], false, r)
        }
    } else if a.len() >= 2 && a[0] == "ip"@ && a[1] == "address"@ {
        &&& new == old
        &&& if a.len() < 4 {
            r == fails(Usage::IpAddress)
        } else {
            removes_address(r, old, a[2], a[3])
        }
    } else {
        new == old && r == fails(Usage::No)
    }
}

/// The plan of `no ip address <ip> <mask>`.
pub open spec fn removes_address(r: Result<Outcome, CliError>, c: CliContext, ip: Seq<char>, mask: Seq<char>) -> bool {
    match c.selected_interface {
        None => r == Err::<Outcome, CliError>(CliError::NoInterfaceSelected),
        Some(i) => if !is_ipv4_text(ip) {
            r matches Err(CliError::InvalidAddress(x)) && x@ == ip
        } else if !is_ipv4_text(mask) {
            r == Err::<Outcome, CliError>(CliError::InvalidSubnetMask)
        } else {
            &&& r matches Ok(Outcome::Run(plan))
            &&& plan.calls@.len() == 1
            &&& plan.calls@[0].is(
                "sudo"@,
                seq!["ip"@, "addr"@, "del"@, cidr_text(ip, mask), "dev"@, i@],
            )
            &&& plan.update matches Some(StateUpdate::RemoveAddress { interface: n })
            &&& n@ == i@
            &&& plan.notes(
                Seq::empty(),
                seq!["IP address "@ + cidr_text(ip, mask) + " is removed from the interface "@ + i@],
            )
        },
    }
}

fn remove_address(ctx: &CliContext, ip: &String, mask: &String) -> (r: Result<Outcome, CliError>)
    ensures
        removes_address(r, *ctx, ip@, mask@),
{
    match &ctx.selected_interface {
        None => Err(CliError::NoInterfaceSelected),
        Some(i) => {
            if !is_ipv4_addr(ip.as_str()) {
                return Err(CliError::InvalidAddress(ip.clone()));
            }
            let cidr = match ip_with_cidr(ip.as_str(), mask.as_str()) {
                Ok(t) => t,
                Err(_) => {
                    return Err(CliError::InvalidSubnetMask);
                },
            };
            let mut v = strings(vec!["ip", "addr", "del"]);
            proof {
                assert(views(v@) =~= seq!["ip"@, "addr"@, "del"@]);
            }
            let after = one_line(
                "IP address ".to_owned().concat(cidr.as_str()).concat(
                    " is removed from the interface ",
                ).concat(i.as_str()),
            );
            push_text(&mut v, cidr);
            push_text(&mut v, "dev".to_owned());
            push_text(&mut v, i.clone());
            proof {
                assert(views(v@) =~= seq!["ip"@, "addr"@, "del"@, cidr_text(ip@, mask@), "dev"@, i@]);
            }
            let calls = vec![ProcessCall { program: "sudo".to_owned(), args: v }];
            Ok(
                Outcome::Run(
                    RunPlan {
                        calls,
                        update: Some(StateUpdate::RemoveAddress { interface: i.clone() }),
                        before: no_lines(),
                        after,
                    },
                ),
            )
        },
    }
}

fn index_of_text(list: &Vec<String>, x: &String) -> (r: Option<usize>)
    ensures
        r is None <==> !views(list@).contains(x@),
        r matches Some(i) ==> i < list@.len() && list@[i as int]@ == x@,
{
    let mut i: usize = 0;
    while i < list.len()
        invariant
            i <= list@.len(),
            forall|j: int| 0 <= j < i ==> views(list@)[j] != x@,
        decreases list@.len() - i,
    {
        if crate::text::str_eq(list[i].as_str(), x.as_str()) {
            proof {
                assert(views(list@)[i as int] == x@);
            }
            return Some(i);
        }
        i = i + 1;
    }
    None
}

fn index_of_association(list: &Vec<crate::network_config::NtpAssociation>, x: &String) -> (r: Option<usize>)
    ensures
        r is None <==> !addresses(list@).contains(x@),
        r matches Some(i) ==> i < list@.len() && list@[i as int].address@ == x@,
{
    let mut i: usize = 0;
    while i < list.len()
        invariant
            i <= list@.len(),
            forall|j: int| 0 <= j < i ==> addresses(list@)[j] != x@,
        decreases list@.len() - i,
    {
        if crate::text::str_eq(list[i].address.as_str(), x.as_str()) {
            proof {
                assert(addresses(list@)[i as int] == x@);
            }
            return Some(i);
        }
        i = i + 1;
    }
    None
}

/// Runs `no ...`.
pub fn no(ctx: &mut CliContext, args: &Vec<String>, env: &Env) -> (r: Result<Outcome, CliError>)
    requires
        old(ctx).wf(),
    ensures
        final(ctx).wf(),
        no_post(*old(ctx), views(args@), *env, *final(ctx), r),
{
    let n = args.len();
    proof {
        assert(forall|i: int| 0 <= i < n ==> #[trigger] views(args@)[i] == args@[i]@);
    }
    if n == 1 && arg_is(args, 0, "shutdown") {
        set_link(ctx, true)
    } else if n == 3 && arg_is(args, 0, "ntp") && arg_is(args, 1, "server") {
        match index_of_text(&ctx.ntp_servers, &args[2]) {
            None => Err(CliError::NtpServerNotFound(args[2].clone())),
            Some(i) => {
                let ghost old_servers = views(ctx.ntp_servers@);
                ctx.ntp_servers.remove(i);
                proof {
                    assert(views(ctx.ntp_servers@) =~= old_servers.remove(i as int));
                }
                match index_of_association(&ctx.ntp_associations, &args[2]) {
                    Some(j) => {
                        let ghost old_addresses = addresses(ctx.ntp_associations@);
                        ctx.ntp_associations.remove(j);
                        proof {
                            assert(addresses(ctx.ntp_associations@) =~= old_addresses.remove(j as int));
                        }
                    },
                    None => {},
                }
                Ok(Outcome::Notice(Notice::NtpServerRemoved(args[2].clone())))
            },
        }
    } else if n >= 2 && arg_is(args, 0, "ip") && arg_is(args, 1, "route") {
        if n < 6 {
            Err(CliError::Usage(Usage::IpRoute))
        } else {
            route(env, &args[2], &args[3], &args[4], &args[5], false)
        }
    } else if n >= 2 && arg_is(args, 0, "ip") && arg_is(args, 1, "address") {
        if n < 4 {
            Err(CliError::Usage(Usage::IpAddress))
        } else {
            remove_address(ctx, &args[2], &args[3])
        }
    } else {
        Err(CliError::Usage(Usage::No))
    }
}

} // verus!
