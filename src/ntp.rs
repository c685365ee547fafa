use vstd::prelude::*;

use crate::context::{addresses, CliContext};
use crate::dispatch::{arg_is, contains_text, done, fails};
use crate::errors::{CliError, Usage};
use crate::network_config::{is_fresh_association, is_ipv4_addr, is_ipv4_text, NtpAssociation};
use crate::outcome::{Notice, Outcome};
use crate::text::{is_unsigned_text, parse_unsigned, unsigned_value, views};

verus! {

/// Whether `t` is a key number: a positive integer that fits in 32 bits.
pub open spec fn is_key_number(t: Seq<char>) -> bool {
    is_unsigned_text(t) && 0 < unsigned_value(t) <= u32::MAX
}

/// `new` is `old` with `x` added to the set, where it was missing.
pub open spec fn text_set_added(old: Seq<String>, new: Seq<String>, x: Seq<char>) -> bool {
    if views(old).contains(x) {
        new == old
    } else {
        new.drop_last() == old && new.len() == old.len() + 1 && new.last()@ == x
    }
}

/// `new` is `old` with the element whose text is `x` taken out.
pub open spec fn text_removed(old: Seq<String>, new: Seq<String>, x: Seq<char>) -> bool {
    exists|i: int| 0 <= i < old.len() && old[i]@ == x && new == old.remove(i)
}

/// The associations after `ntp server x`: a fresh record is appended where none has `x`.
pub open spec fn association_added(
    old: Seq<NtpAssociation>,
    new: Seq<NtpAssociation>,
    x: Seq<char>,
) -> bool {
    if addresses(old).contains(x) {
        new == old
    } else {
        new.drop_last() == old && new.len() == old.len() + 1 && is_fresh_association(
            new.last(),
            x,
        )
    }
}

/// The associations after `no ntp server x`: the record of `x`, if any, is taken out.
pub open spec fn association_removed(
    old: Seq<NtpAssociation>,
    new: Seq<NtpAssociation>,
    x: Seq<char>,
) -> bool {
    if addresses(old).contains(x) {
        exists|i: int| 0 <= i < old.len() && old[i].address@ == x && new == old.remove(i)
    } else {
        new == old
    }
}

/// The keys after `ntp authentication-key k md5 v`: the entry of `k` holds `v`, in place
/// where `k` was known and appended where not.
pub open spec fn key_stored(
    old: Seq<(u32, String)>,
    new: Seq<(u32, String)>,
    k: u32,
    v: Seq<char>,
) -> bool {
    if exists|i: int| 0 <= i < old.len() && old[i].0 == k {
        exists|i: int|
            0 <= i < old.len() && old[i].0 == k && new == old.update(i, (k, new[i].1)) && new[i].1@
                == v
    } else {
        new.drop_last() == old && new.len() == old.len() + 1 && new.last().0 == k
            && new.last().1@ == v
    }
}

/// The trusted keys after `ntp trusted-key k`.
pub open spec fn number_added(old: Seq<u32>, new: Seq<u32>, k: u32) -> bool {
    if old.contains(k) {
        new == old
    } else {
        new == old.push(k)
    }
}

/// The contract of the `ntp` subcommands.
pub open spec fn ntp_post(
    old: CliContext,
    a: Seq<Seq<char>>,
    new: CliContext,
    r: Result<Outcome, CliError>,
) -> bool {
    if a.len() == 0 {
        new == old && r == fails(Usage::Ntp)
    } else if a[0] == "server"@ {
        if a.len() != 2 {
            new == old && r == fails(Usage::NtpServer)
        } else if !is_ipv4_text(a[1]) {
            new == old && (r matches Err(CliError::InvalidAddress(x)) && x@ == a[1])
        } else {
            &&& r matches Ok(Outcome::Notice(Notice::NtpServerAdded(x)))
            &&& x@ == a[1]
            &&& text_set_added(old.ntp_servers@, new.ntp_servers@, a[1])
            &&& association_added(old.ntp_associations@, new.ntp_associations@, a[1])
            &&& new == CliContext {
                ntp_servers: new.ntp_servers,
                ntp_associations: new.ntp_associations,
                ..old
            }
        }
    } else if a[0] == "source"@ {
        if a.len() == 2 {
            &&& r matches Ok(Outcome::Notice(Notice::NtpSourceSet(x)))
            &&& x@ == a[1]
            &&& new.ntp_source_interface matches Some(y) && y@ == a[1]
            &&& new == CliContext { ntp_source_interface: new.ntp_source_interface, ..old }
        } else {
            new == old && r == fails(Usage::NtpSource)
        }
    } else if a[0] == "master"@ {
        new == CliContext { ntp_master: true, ..old } && r == done(
            Outcome::Notice(Notice::NtpMaster),
        )
    } else if a[0] == "authenticate"@ {
        if a.len() == 1 {
            &&& new == toggled_authentication(old)
            &&& r == done(
                Outcome::Notice(Notice::NtpAuthentication(!old.ntp_authentication_enabled)),
            )
        } else {
            new == old && r == fails(Usage::NtpAuthenticate)
        }
    } else if a[0] == "authentication-key"@ {
        if a.len() == 4 && a[2] == "md5"@ {
            if is_key_number(a[1]) {
                let k = unsigned_value(a[1]) as u32;
                &&& r matches Ok(Outcome::Notice(Notice::NtpKeyAdded(n, v)))
                &&& n == k
                &&& v@ == a[3]
                &&& key_stored(old.ntp_authentication_keys@, new.ntp_authentication_keys@, k, a[3])
                &&& new == CliContext { ntp_authentication_keys: new.ntp_authentication_keys, ..old }
            } else {
                new == old && (r matches Err(CliError::InvalidKeyNumber(x)) && x@ == a[1])
            }
        } else {
            new == old && r == fails(Usage::NtpAuthenticationKey)
        }
    } else if a[0] == "trusted-key"@ {
        if a.len() == 2 {
            if is_key_number(a[1]) {
                let k = unsigned_value(a[1]) as u32;
                &&& r == done(Outcome::Notice(Notice::NtpTrustedKey(k)))
                &&& number_added(old.ntp_trusted_keys@, new.ntp_trusted_keys@, k)
                &&& new == CliContext { ntp_trusted_keys: new.ntp_trusted_keys, ..old }
            } else {
                new == old && (r matches Err(CliError::InvalidKeyNumber(x)) && x@ == a[1])
            }
        } else {
            new == old && r == fails(Usage::NtpTrustedKey)
        }
    } else {
        new == old && r == fails(Usage::Ntp)
    }
}

/// `s` with NTP authentication switched to the other state.
pub open spec fn toggled_authentication(s: CliContext) -> CliContext {
    CliContext { ntp_authentication_enabled: !s.ntp_authentication_enabled, ..s }
}

/// Reads a key number: a positive integer that fits in 32 bits.
pub fn parse_key_number(t: &str) -> (r: Option<u32>)
    ensures
        r is Some <==> is_key_number(t@),
        r matches Some(k) ==> k == unsigned_value(t@),
{
    match parse_unsigned(t, 0xFFFF_FFFFu32) {
        Some(k) => if k > 0 {
            Some(k)
        } else {
            None
        },
        None => None,
    }
}

fn has_association(list: &Vec<NtpAssociation>, address: &String) -> (r: Option<usize>)
    ensures
        r is None <==> !addresses(list@).contains(address@),
        r matches Some(i) ==> i < list@.len() && list@[i as int].address@ == address@,
{
    let mut i: usize = 0;
    while i < list.len()
        invariant
            i <= list@.len(),
            forall|j: int| 0 <= j < i ==> addresses(list@)[j] != address@,
        decreases list@.len() - i,
    {
        if crate::text::str_eq(list[i].address.as_str(), address.as_str()) {
            proof {
                assert(addresses(list@)[i as int] == address@);
            }
            return Some(i);
        }
        i = i + 1;
    }
    None
}

fn add_server(ctx: &mut CliContext, address: &String)
    requires
        old(ctx).wf(),
    ensures
        final(ctx).wf(),
        text_set_added(old(ctx).ntp_servers@, final(ctx).ntp_servers@, address@),
        association_added(old(ctx).ntp_associations@, final(ctx).ntp_associations@, address@),
        *final(ctx) == (CliContext {
            ntp_servers: final(ctx).ntp_servers,
            ntp_associations: final(ctx).ntp_associations,
            ..*old(ctx)
        }),
{
    if !contains_text(&ctx.ntp_servers, address) {
        let ghost before = views(ctx.ntp_servers@);
        ctx.ntp_servers.push(address.clone());
        proof {
            assert(views(ctx.ntp_servers@) =~= before.push(address@));
            assert(ctx.ntp_servers@.drop_last() =~= old(ctx).ntp_servers@);
        }
    }
    if has_association(&ctx.ntp_associations, address).is_none() {
        let ghost before = addresses(ctx.ntp_associations@);
        ctx.ntp_associations.push(NtpAssociation::unsynchronized(address));
        proof {
            assert(addresses(ctx.ntp_associations@) =~= before.push(address@));
            assert(ctx.ntp_associations@.drop_last() =~= old(ctx).ntp_associations@);
        }
    }
}

fn store_key(ctx: &mut CliContext, k: u32, v: &String)
    requires
        old(ctx).wf(),
    ensures
        final(ctx).wf(),
        key_stored(old(ctx).ntp_authentication_keys@, final(ctx).ntp_authentication_keys@, k, v@),
        *final(ctx) == (CliContext {
            ntp_authentication_keys: final(ctx).ntp_authentication_keys,
            ..*old(ctx)
        }),
{
    let mut i: usize = 0;
    while i < ctx.ntp_authentication_keys.len()
        invariant
            *ctx == *old(ctx),
            old(ctx).wf(),
            i <= ctx.ntp_authentication_keys@.len(),
            forall|j: int| 0 <= j < i ==> ctx.ntp_authentication_keys@[j].0 != k,
        decreases ctx.ntp_authentication_keys@.len() - i,
    {
        if ctx.ntp_authentication_keys[i].0 == k {
            ctx.ntp_authentication_keys.set(i, (k, v.clone()));
            proof {
                let old_keys = old(ctx).ntp_authentication_keys@;
                let new_keys = ctx.ntp_authentication_keys@;
                assert(new_keys == old_keys.update(i as int, (k, new_keys[i as int].1)));
                assert(forall|j: int| 0 <= j < new_keys.len() ==> #[trigger] new_keys[j].0
                    == old_keys[j].0);
            }
            return;
        }
        i = i + 1;
    }
    ctx.ntp_authentication_keys.push((k, v.clone()));
    proof {
        let old_keys = old(ctx).ntp_authentication_keys@;
        let new_keys = ctx.ntp_authentication_keys@;
        assert(new_keys.drop_last() =~= old_keys);
        assert(forall|j: int| 0 <= j < old_keys.len() ==> #[trigger] new_keys[j] == old_keys[j]);
    }
}

fn trust_key(ctx: &mut CliContext, k: u32)
    requires
        old(ctx).wf(),
    ensures
        final(ctx).wf(),
        number_added(old(ctx).ntp_trusted_keys@, final(ctx).ntp_trusted_keys@, k),
        *final(ctx) == (CliContext { ntp_trusted_keys: final(ctx).ntp_trusted_keys, ..*old(ctx) }),
{
    let mut i: usize = 0;
    while i < ctx.ntp_trusted_keys.len()
        invariant
            *ctx == *old(ctx),
            old(ctx).wf(),
            i <= ctx.ntp_trusted_keys@.len(),
            forall|j: int| 0 <= j < i ==> ctx.ntp_trusted_keys@[j] != k,
        decreases ctx.ntp_trusted_keys@.len() - i,
    {
        if ctx.ntp_trusted_keys[i] == k {
            proof {
                assert(ctx.ntp_trusted_keys@.contains(k));
            }
            return;
        }
        i = i + 1;
    }
    ctx.ntp_trusted_keys.push(k);
}

/// Runs an `ntp` subcommand against the session.
pub fn ntp(ctx: &mut CliContext, args: &Vec<String>) -> (r: Result<Outcome, CliError>)
    requires
        old(ctx).wf(),
    ensures
        final(ctx).wf(),
        ntp_post(*old(ctx), views(args@), *final(ctx), r),
{
    let n = args.len();
    if n == 0 {
        return Err(CliError::Usage(Usage::Ntp));
    }
    proof {
        assert(forall|i: int| 0 <= i < n ==> #[trigger] views(args@)[i] == args@[i]@);
    }
    if arg_is(args, 0, "server") {
        if n != 2 {
            Err(CliError::Usage(Usage::NtpServer))
        } else if !is_ipv4_addr(args[1].as_str()) {
            Err(CliError::InvalidAddress(args[1].clone()))
        } else {
            let address = args[1].clone();
            add_server(ctx, &address);
            Ok(Outcome::Notice(Notice::NtpServerAdded(address)))
        }
    } else if arg_is(args, 0, "source") {
        if n == 2 {
            let name = args[1].clone();
            ctx.ntp_source_interface = Some(name.clone());
            Ok(Outcome::Notice(Notice::NtpSourceSet(name)))
        } else {
            Err(CliError::Usage(Usage::NtpSource))
        }
    } else if arg_is(args, 0, "master") {
        ctx.ntp_master = true;
        Ok(Outcome::Notice(Notice::NtpMaster))
    } else if arg_is(args, 0, "authenticate") {
        if n == 1 {
            ctx.ntp_authentication_enabled = !ctx.ntp_authentication_enabled;
            Ok(Outcome::Notice(Notice::NtpAuthentication(ctx.ntp_authentication_enabled)))
        } else {
            Err(CliError::Usage(Usage::NtpAuthenticate))
        }
    } else if arg_is(args, 0, "authentication-key") {
        if n == 4 && arg_is(args, 2, "md5") {
            match parse_key_number(args[1].as_str()) {
                Some(k) => {
                    store_key(ctx, k, &args[3]);
                    Ok(Outcome::Notice(Notice::NtpKeyAdded(k, args[3].clone())))
                },
                None => Err(CliError::InvalidKeyNumber(args[1].clone())),
            }
        } else {
            Err(CliError::Usage(Usage::NtpAuthenticationKey))
        }
    } else if arg_is(args, 0, "trusted-key") {
        if n == 2 {
            match parse_key_number(args[1].as_str()) {
                Some(k) => {
                    trust_key(ctx, k);
                    Ok(Outcome::Notice(Notice::NtpTrustedKey(k)))
                },
                None => Err(CliError::InvalidKeyNumber(args[1].clone())),
            }
        } else {
            Err(CliError::Usage(Usage::NtpTrustedKey))
        }
    } else {
        Err(CliError::Usage(Usage::Ntp))
    }
}

} // verus!
