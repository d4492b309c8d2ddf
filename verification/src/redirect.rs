//! System DNS redirection. On connect the system resolver is pointed at the
//! local proxy, and on disconnect the exact prior state is restored. The
//! platform calls (D-Bus, `netsh`, `networksetup`, SCDynamicStore) are made by
//! the service; here are the records of what was applied, the decisions
//! between the native path and its fallback, what a restore must undo, and
//! the exact arguments and file contents the platform tools receive.

use vstd::prelude::*;

use crate::net::{IpAddress, ip_text, push_ip_text};
use crate::text::{
    char_vecs_view, chars_of, concat_str, extend_chars, owned_strings, string_of, strings_view,
};

verus! {

/// Why a redirect could not be applied.
#[derive(Debug, Clone, Copy, PartialEq, Eq, Structural)]
pub enum RedirectError {
    /// Linux: no default-route interface in `/proc/net/route`.
    NoDefaultRouteInterface,
    /// Windows: `netsh` lists no connected interface.
    NoConnectedInterfaces,
    /// macOS: `networksetup` lists no network service.
    NoNetworkServices,
    /// macOS: SCDynamicStore accepted the override on no service.
    NoServiceAccepted,
}

pub open spec fn redirect_error_text(e: RedirectError) -> Seq<char> {
    match e {
        RedirectError::NoDefaultRouteInterface => "could not determine default-route interface"@,
        RedirectError::NoConnectedInterfaces => "no connected network interfaces found"@,
        RedirectError::NoNetworkServices => "no network services found"@,
        RedirectError::NoServiceAccepted => "failed to set DNS on any service"@,
    }
}

impl RedirectError {
    /// The error's message.
    pub fn message(&self) -> (r: String)
        ensures
            r@ == redirect_error_text(*self),
    {
        match self {
            RedirectError::NoDefaultRouteInterface => "could not determine default-route interface".to_owned(),
            RedirectError::NoConnectedInterfaces => "no connected network interfaces found".to_owned(),
            RedirectError::NoNetworkServices => "no network services found".to_owned(),
            RedirectError::NoServiceAccepted => "failed to set DNS on any service".to_owned(),
        }
    }
}

// ---------------------------------------------------------------- Linux

/// The address family number of IPv4 (`AF_INET`).
pub fn libc_af_inet() -> (r: i32)
    ensures
        r == 2,
{
    2
}

/// The address family number of IPv6 (`AF_INET6`).
pub fn libc_af_inet6() -> (r: i32)
    ensures
        r == 10,
{
    10
}

/// The `(family, address bytes)` entry that `SetLinkDNS` takes for an address.
pub open spec fn link_dns_entry_spec(a: IpAddress) -> (i32, Seq<u8>) {
    match a {
        IpAddress::V4(o) => (2, o@),
        IpAddress::V6(o) => (10, o@),
    }
}

/// The `(family, address bytes)` entry that `SetLinkDNS` takes for the proxy.
pub fn link_dns_entry(proxy: &IpAddress) -> (r: (i32, Vec<u8>))
    ensures
        (r.0, r.1@) == link_dns_entry_spec(*proxy),
{
    match proxy {
        IpAddress::V4(o) => {
            let mut bytes: Vec<u8> = Vec::new();
            let mut i: usize = 0;
            while i < 4
                invariant
                    i <= 4,
                    bytes@ =~= o@.take(i as int),
                decreases 4 - i,
            {
                bytes.push(o[i]);
                i = i + 1;
            }
            proof {
                assert(o@.take(4) =~= o@);
            }
            (libc_af_inet(), bytes)
        },
        IpAddress::V6(o) => {
            let mut bytes: Vec<u8> = Vec::new();
            let mut i: usize = 0;
            while i < 16
                invariant
                    i <= 16,
                    bytes@ =~= o@.take(i as int),
                decreases 16 - i,
            {
                bytes.push(o[i]);
                i = i + 1;
            }
            proof {
                assert(o@.take(16) =~= o@);
            }
            (libc_af_inet6(), bytes)
        },
    }
}

/// The `/etc/resolv.conf` written when systemd-resolved is not running.
pub open spec fn resolv_conf_text(proxy: IpAddress) -> Seq<char> {
    "# voidns managed\nnameserver "@ + ip_text(proxy) + seq!['\n']
}

/// The contents of the rewritten `/etc/resolv.conf`.
pub fn resolv_conf_contents(proxy: &IpAddress) -> (r: String)
    ensures
        r@ == resolv_conf_text(*proxy),
{
    let mut out = chars_of("# voidns managed\nnameserver ");
    push_ip_text(&mut out, proxy);
    out.push('\n');
    string_of(&out)
}

/// How DNS is redirected on Linux, so a restore takes the matching path.
#[derive(Debug, Clone, Copy, PartialEq, Eq, Structural)]
pub enum LinuxActive {
    Idle,
    /// systemd-resolved: this link was made the default DNS route.
    Resolved { ifindex: i32 },
    /// `/etc/resolv.conf` was backed up and rewritten.
    ResolvConf,
}

/// What undoing a Linux redirect takes.
#[derive(Debug, Clone, Copy, PartialEq, Eq, Structural)]
pub enum LinuxRestore {
    /// `RevertLink(ifindex)` on systemd-resolved.
    RevertLink { ifindex: i32 },
    /// Copy the backup back over `/etc/resolv.conf` and remove the backup.
    RestoreResolvConf,
    Nothing,
}

pub open spec fn linux_restore_spec(a: LinuxActive) -> LinuxRestore {
    match a {
        LinuxActive::Idle => LinuxRestore::Nothing,
        LinuxActive::Resolved { ifindex } => LinuxRestore::RevertLink { ifindex },
        LinuxActive::ResolvConf => LinuxRestore::RestoreResolvConf,
    }
}

/// The Linux redirector's record of what it applied.
pub struct LinuxRedirector {
    pub active: LinuxActive,
}

impl LinuxRedirector {
    pub fn new() -> (r: Self)
        ensures
            r.active == LinuxActive::Idle,
    {
        LinuxRedirector { active: LinuxActive::Idle }
    }

    /// Records a redirect through systemd-resolved on link `ifindex`.
    pub fn applied_via_resolved(&mut self, ifindex: i32)
        ensures
            final(self).active == (LinuxActive::Resolved { ifindex }),
    {
        self.active = LinuxActive::Resolved { ifindex };
    }

    /// Records a redirect through `/etc/resolv.conf`.
    pub fn applied_via_resolv_conf(&mut self)
        ensures
            final(self).active == LinuxActive::ResolvConf,
    {
        self.active = LinuxActive::ResolvConf;
    }

    /// What restoring the pre-connect DNS takes; the record returns to idle.
    pub fn restore(&mut self) -> (r: LinuxRestore)
        ensures
            r == linux_restore_spec(old(self).active),
            final(self).active == LinuxActive::Idle,
    {
        let r = match self.active {
            LinuxActive::Idle => LinuxRestore::Nothing,
            LinuxActive::Resolved { ifindex } => LinuxRestore::RevertLink { ifindex },
            LinuxActive::ResolvConf => LinuxRestore::RestoreResolvConf,
        };
        self.active = LinuxActive::Idle;
        r
    }
}

/// A restore undoes exactly the redirect that was recorded, and restoring
/// again does nothing.
pub proof fn law_linux_restore_undoes_apply(ifindex: i32)
    ensures
        linux_restore_spec(LinuxActive::Resolved { ifindex }) == (LinuxRestore::RevertLink {
            ifindex,
        }),
        linux_restore_spec(LinuxActive::ResolvConf) == LinuxRestore::RestoreResolvConf,
        linux_restore_spec(LinuxActive::Idle) == LinuxRestore::Nothing,
{
}

// ---------------------------------------------------------------- Windows

/// A character in UTF-16: one unit, or a surrogate pair.
pub open spec fn utf16_units(c: char) -> Seq<u16> {
    let n = c as u32;
    if n < 0x10000 {
        seq![n as u16]
    } else {
        let m = (n - 0x10000) as u32;
        seq![(0xD800 + m / 0x400) as u16, (0xDC00 + m % 0x400) as u16]
    }
}

/// A character sequence in UTF-16, as `str::encode_utf16` yields it.
pub open spec fn utf16(s: Seq<char>) -> Seq<u16>
    decreases s.len(),
{
    if s.len() == 0 {
        Seq::<u16>::empty()
    } else {
        utf16(s.drop_last()) + utf16_units(s.last())
    }
}

/// A NUL-terminated UTF-16 copy of `s`, as Win32 wide-string parameters take it.
pub fn wide(s: &str) -> (r: Vec<u16>)
    ensures
        r@ == utf16(s@).push(0u16),
{
    let chars = chars_of(s);
    let mut out: Vec<u16> = Vec::new();
    let n = chars.len();
    let mut i: usize = 0;
    proof {
        assert(chars@.take(0) =~= Seq::<char>::empty());
    }
    while i < n
        invariant
            n == chars@.len(),
            i <= n,
            out@ =~= utf16(chars@.take(i as int)),
        decreases n - i,
    {
        let c = chars[i];
        let v = c as u32;
        proof {
            assert(chars@.take(i + 1).drop_last() =~= chars@.take(i as int));
        }
        if v < 0x10000 {
            out.push(v as u16);
        } else {
            let m = v - 0x10000;
            out.push((0xD800 + m / 0x400) as u16);
            out.push((0xDC00 + m % 0x400) as u16);
        }
        i = i + 1;
    }
    proof {
        assert(chars@.take(n as int) =~= chars@);
    }
    out.push(0);
    out
}

/// The `netsh` arguments that set an interface's IPv4 DNS server.
pub open spec fn netsh_set_args(name: Seq<char>, server: Seq<char>) -> Seq<Seq<char>> {
    seq![
        "interface"@,
        "ipv4"@,
        "set"@,
        "dnsservers"@,
        "name="@ + name,
        "static"@,
        server,
        "primary"@,
    ]
}

/// The `netsh` arguments that return an interface's IPv4 DNS to DHCP.
pub open spec fn netsh_clear_args(name: Seq<char>) -> Seq<Seq<char>> {
    seq!["interface"@, "ipv4"@, "set"@, "dnsservers"@, "name="@ + name, "dhcp"@]
}

/// Arguments of `netsh` to point interface `name` at `server`.
pub fn netsh_set(name: &str, server: &str) -> (r: Vec<String>)
    ensures
        strings_view(r@) == netsh_set_args(name@, server@),
{
    let mut args = owned_strings(&["interface", "ipv4", "set", "dnsservers"]);
    args.push(concat_str("name=", name));
    args.push("static".to_owned());
    args.push(server.to_owned());
    args.push("primary".to_owned());
    proof {
        assert(strings_view(args@) =~= netsh_set_args(name@, server@));
    }
    args
}

/// Arguments of `netsh` to return interface `name` to DHCP-assigned DNS.
pub fn netsh_clear(name: &str) -> (r: Vec<String>)
    ensures
        strings_view(r@) == netsh_clear_args(name@),
{
    let mut args = owned_strings(&["interface", "ipv4", "set", "dnsservers"]);
    args.push(concat_str("name=", name));
    args.push("dhcp".to_owned());
    proof {
        assert(strings_view(args@) =~= netsh_clear_args(name@));
    }
    args
}

/// The Windows redirector's record: the interfaces set through
/// `SetInterfaceDnsSettings`, and those set through `netsh`.
pub struct WindowsRedirector {
    pub native: Vec<String>,
    pub netsh: Vec<String>,
}

/// The model of a Windows record.
pub struct WindowsView {
    pub native: Seq<Seq<char>>,
    pub netsh: Seq<Seq<char>>,
}

impl View for WindowsRedirector {
    type V = WindowsView;

    open spec fn view(&self) -> WindowsView {
        WindowsView { native: strings_view(self.native@), netsh: strings_view(self.netsh@) }
    }
}

/// What undoing a Windows redirect takes: clear each interface through the
/// path that set it, which returns it to DHCP-assigned DNS.
pub struct WindowsRestore {
    pub clear_native: Vec<String>,
    pub clear_netsh: Vec<String>,
}

/// A record of nothing applied.
pub open spec fn windows_unset() -> WindowsView {
    WindowsView { native: Seq::empty(), netsh: Seq::empty() }
}

/// A Windows restore: the interfaces to clear natively and through `netsh`,
/// and the record afterwards (nothing applied).
pub open spec fn windows_restore_spec(a: WindowsView) -> (WindowsView, (Seq<Seq<char>>, Seq<Seq<char>>)) {
    (windows_unset(), (a.native, a.netsh))
}

/// Every flag flipped.
pub open spec fn negated(flags: Seq<bool>) -> Seq<bool> {
    flags.map_values(|b: bool| !b)
}

/// The names whose flag is set, in order.
pub open spec fn flagged_names(names: Seq<Seq<char>>, ok: Seq<bool>) -> Seq<Seq<char>> {
    crate::parse::flagged(names, ok)
}

proof fn lemma_flagged_contains(items: Seq<Seq<char>>, flags: Seq<bool>, i: int)
    requires
        items.len() == flags.len(),
        0 <= i < items.len(),
        flags[i],
    ensures
        flagged_names(items, flags).contains(items[i]),
    decreases items.len(),
{
    let r = crate::parse::flagged(items.drop_last(), flags.drop_last());
    if i == items.len() - 1 {
        assert(crate::parse::flagged(items, flags) == r.push(items.last()));
        assert(r.push(items.last())[r.len() as int] == items[i]);
    } else {
        lemma_flagged_contains(items.drop_last(), flags.drop_last(), i);
        let k = choose|k: int| 0 <= k < r.len() && r[k] == items[i];
        if flags.last() {
            assert(crate::parse::flagged(items, flags)[k] == items[i]);
        }
    }
}

/// Every listed interface is set one way or the other: natively when its
/// native attempt succeeded, through `netsh` otherwise.
pub proof fn law_windows_every_adapter_redirected(names: Seq<Seq<char>>, native_ok: Seq<bool>)
    requires
        names.len() == native_ok.len(),
    ensures
        forall|i: int|
            0 <= i < names.len() ==> (native_ok[i] ==> flagged_names(names, native_ok).contains(
                #[trigger] names[i],
            )) && (!native_ok[i] ==> flagged_names(names, negated(native_ok)).contains(names[i])),
{
    assert forall|i: int| 0 <= i < names.len() implies (native_ok[i] ==> flagged_names(
        names,
        native_ok,
    ).contains(#[trigger] names[i])) && (!native_ok[i] ==> flagged_names(
        names,
        negated(native_ok),
    ).contains(names[i])) by {
        if native_ok[i] {
            lemma_flagged_contains(names, native_ok, i);
        } else {
            lemma_flagged_contains(names, negated(native_ok), i);
        }
    }
}

/// Restoring clears exactly what was applied, through the same paths, and a
/// second restore clears nothing.
pub proof fn law_windows_restore_idempotent(a: WindowsView)
    ensures
        windows_restore_spec(a).1 == (a.native, a.netsh),
        windows_restore_spec(windows_restore_spec(a).0).1 == (
            Seq::<Seq<char>>::empty(),
            Seq::<Seq<char>>::empty(),
        ),
        windows_restore_spec(windows_restore_spec(a).0).0 == windows_restore_spec(a).0,
{
}

impl WindowsRedirector {
    pub fn new() -> (r: Self)
        ensures
            r@ == windows_unset(),
    {
        let r = WindowsRedirector { native: Vec::new(), netsh: Vec::new() };
        proof {
            assert(r@.native =~= Seq::<Seq<char>>::empty());
            assert(r@.netsh =~= Seq::<Seq<char>>::empty());
        }
        r
    }

    /// Checks that there is an interface to redirect.
    pub fn check_interfaces(ifaces: &Vec<String>) -> (r: Result<(), RedirectError>)
        ensures
            r is Err <==> ifaces@.len() == 0,
            r is Err ==> r == Err::<(), RedirectError>(RedirectError::NoConnectedInterfaces),
    {
        if ifaces.len() == 0 {
            Err(RedirectError::NoConnectedInterfaces)
        } else {
            Ok(())
        }
    }

    /// Settles the native attempts (`native_ok[i]` for `ifaces[i]`): the
    /// interfaces that took the native setting are recorded, and the ones
    /// that did not are returned, to be set through `netsh` (each recorded
    /// with [`WindowsRedirector::applied_via_netsh`] once set). Together the
    /// two cover every listed interface.
    pub fn settle_native(&mut self, ifaces: Vec<String>, native_ok: &Vec<bool>) -> (r: Vec<String>)
        requires
            native_ok@.len() == ifaces@.len(),
        ensures
            final(self)@.native == flagged_names(strings_view(ifaces@), native_ok@),
            final(self)@.netsh == Seq::<Seq<char>>::empty(),
            strings_view(r@) == flagged_names(strings_view(ifaces@), negated(native_ok@)),
    {
        let mut failed: Vec<bool> = Vec::new();
        let n = native_ok.len();
        let mut i: usize = 0;
        while i < n
            invariant
                n == native_ok@.len(),
                i <= n,
                failed@ =~= negated(native_ok@.take(i as int)),
            decreases n - i,
        {
            failed.push(!native_ok[i]);
            proof {
                assert(native_ok@.take(i + 1) =~= native_ok@.take(i as int).push(native_ok@[i as int]));
            }
            i = i + 1;
        }
        proof {
            assert(native_ok@.take(n as int) =~= native_ok@);
        }
        let copied = copy_strings(&ifaces);
        proof {
            assert(strings_view(copied@).len() == copied@.len());
            assert(strings_view(ifaces@).len() == ifaces@.len());
        }
        let for_netsh = crate::parse::keep_flagged(copied, &failed);
        let ok = crate::parse::keep_flagged(ifaces, native_ok);
        *self = WindowsRedirector { native: ok, netsh: Vec::new() };
        proof {
            assert(self@.netsh =~= Seq::<Seq<char>>::empty());
        }
        for_netsh
    }

    /// Records that interface `name` was set through `netsh`.
    pub fn applied_via_netsh(&mut self, name: String)
        ensures
            final(self)@.native == old(self)@.native,
            final(self)@.netsh == old(self)@.netsh.push(name@),
    {
        let ghost before = self.netsh@;
        self.netsh.push(name);
        proof {
            assert(strings_view(self.netsh@) =~= strings_view(before).push(name@));
        }
    }

    /// What restoring the pre-connect DNS takes; the record returns to none.
    pub fn restore(&mut self) -> (r: WindowsRestore)
        ensures
            final(self)@ == windows_restore_spec(old(self)@).0,
            (strings_view(r.clear_native@), strings_view(r.clear_netsh@)) == windows_restore_spec(
                old(self)@,
            ).1,
    {
        let mut native: Vec<String> = Vec::new();
        let mut netsh: Vec<String> = Vec::new();
        std::mem::swap(&mut native, &mut self.native);
        std::mem::swap(&mut netsh, &mut self.netsh);
        proof {
            assert(self@.native =~= Seq::<Seq<char>>::empty());
            assert(self@.netsh =~= Seq::<Seq<char>>::empty());
        }
        WindowsRestore { clear_native: native, clear_netsh: netsh }
    }
}

/// Copies a vector of strings.
pub fn copy_strings(v: &Vec<String>) -> (r: Vec<String>)
    ensures
        strings_view(r@) == strings_view(v@),
{
    let mut r: Vec<String> = Vec::new();
    let n = v.len();
    let mut i: usize = 0;
    while i < n
        invariant
            n == v@.len(),
            i <= n,
            strings_view(r@) =~= strings_view(v@).take(i as int),
        decreases n - i,
    {
        let s = v[i].clone();
        let ghost before = r@;
        r.push(s);
        proof {
            assert(strings_view(r@) =~= strings_view(before).push(s@));
        }
        i = i + 1;
    }
    proof {
        assert(strings_view(v@).take(n as int) =~= strings_view(v@));
    }
    r
}

// ---------------------------------------------------------------- macOS

/// The text after the last `'/'` of `s` (all of `s` when it has none), as
/// `rsplit('/').next()` gives it.
pub open spec fn last_segment(s: Seq<char>) -> Seq<char>
    decreases s.len(),
{
    if s.len() == 0 {
        s
    } else if s.last() == '/' {
        Seq::<char>::empty()
    } else {
        last_segment(s.drop_last()).push(s.last())
    }
}

/// The runtime (`State:/`) DNS key of the service whose setup key is given.
pub open spec fn state_dns_key(setup_key: Seq<char>) -> Seq<char> {
    "State:/Network/Service/"@ + last_segment(setup_key) + "/DNS"@
}

/// The runtime DNS key for a `Setup:/Network/Service/<uuid>` key.
pub fn state_dns_path(setup_key: &str) -> (r: String)
    ensures
        r@ == state_dns_key(setup_key@),
{
    let s = chars_of(setup_key);
    let n = s.len();
    let mut j: usize = n;
    proof {
        assert(s@.take(n as int) =~= s@);
        assert(s@.subrange(n as int, n as int) =~= Seq::<char>::empty());
    }
    while j > 0 && s[j - 1] != '/'
        invariant
            n == s@.len(),
            j <= n,
            last_segment(s@) == last_segment(s@.take(j as int)) + s@.subrange(j as int, n as int),
        decreases j,
    {
        proof {
            let t = s@.take(j as int);
            assert(t.drop_last() =~= s@.take(j - 1));
            assert(t.last() == s@[j - 1]);
            assert(s@.subrange(j - 1, n as int) =~= seq![s@[j - 1]] + s@.subrange(j as int, n as int));
        }
        j = j - 1;
    }
    proof {
        if j > 0 {
            assert(s@.take(j as int).last() == '/');
        }
        assert(last_segment(s@.take(j as int)) =~= Seq::<char>::empty());
    }
    let seg = crate::text::copy_range(&s, j, n);
    let mut out = chars_of("State:/Network/Service/");
    extend_chars(&mut out, &seg);
    let tail = chars_of("/DNS");
    extend_chars(&mut out, &tail);
    string_of(&out)
}

/// The `networksetup` arguments that set a service's DNS servers to `server`.
pub open spec fn set_dns_args_spec(service: Seq<char>, server: Seq<char>) -> Seq<Seq<char>> {
    seq!["-setdnsservers"@, service, server]
}

/// Arguments of `networksetup` to point `service` at `server`.
pub fn set_dns_servers_args(service: &str, server: &str) -> (r: Vec<String>)
    ensures
        strings_view(r@) == set_dns_args_spec(service@, server@),
{
    let mut args: Vec<String> = Vec::new();
    args.push("-setdnsservers".to_owned());
    args.push(service.to_owned());
    args.push(server.to_owned());
    proof {
        assert(strings_view(args@) =~= set_dns_args_spec(service@, server@));
    }
    args
}

/// The `networksetup` arguments that put back a service's previous DNS
/// servers: the saved list, or `Empty` (DHCP) when there was none.
pub open spec fn restore_dns_args_spec(service: Seq<char>, servers: Seq<Seq<char>>) -> Seq<
    Seq<char>,
> {
    seq!["-setdnsservers"@, service] + if servers.len() == 0 {
        seq!["Empty"@]
    } else {
        servers
    }
}

/// A service's saved DNS servers, as text.
pub open spec fn saved_view(saved: Seq<(String, Vec<String>)>) -> Seq<(Seq<char>, Seq<Seq<char>>)> {
    saved.map_values(|e: (String, Vec<String>)| (e.0@, strings_view(e.1@)))
}

/// The `networksetup` argument lists that restore each saved service, in order.
pub open spec fn restore_shell_spec(saved: Seq<(Seq<char>, Seq<Seq<char>>)>) -> Seq<Seq<Seq<char>>> {
    saved.map_values(|e: (Seq<char>, Seq<Seq<char>>)| restore_dns_args_spec(e.0, e.1))
}

fn restore_dns_args(service: &String, servers: &Vec<String>) -> (r: Vec<String>)
    ensures
        strings_view(r@) == restore_dns_args_spec(service@, strings_view(servers@)),
{
    let mut args: Vec<String> = Vec::new();
    args.push("-setdnsservers".to_owned());
    args.push(service.clone());
    if servers.len() == 0 {
        args.push("Empty".to_owned());
        proof {
            assert(strings_view(args@) =~= restore_dns_args_spec(service@, strings_view(servers@)));
        }
        return args;
    }
    let n = servers.len();
    let mut i: usize = 0;
    while i < n
        invariant
            n == servers@.len(),
            n > 0,
            i <= n,
            strings_view(args@) =~= seq!["-setdnsservers"@, service@] + strings_view(servers@).take(
                i as int,
            ),
        decreases n - i,
    {
        let item = servers[i].clone();
        let ghost before = args@;
        args.push(item);
        proof {
            assert(strings_view(args@) =~= strings_view(before).push(item@));
        }
        i = i + 1;
    }
    proof {
        assert(strings_view(servers@).take(n as int) =~= strings_view(servers@));
    }
    args
}

/// The `networksetup` argument lists that restore every saved service.
pub fn restore_shell(prev: &Vec<(String, Vec<String>)>) -> (r: Vec<Vec<String>>)
    ensures
        r@.len() == prev@.len(),
        forall|i: int|
            0 <= i < r@.len() ==> strings_view(#[trigger] r@[i]@) == restore_shell_spec(
                saved_view(prev@),
            )[i],
{
    let mut out: Vec<Vec<String>> = Vec::new();
    let n = prev.len();
    let mut i: usize = 0;
    while i < n
        invariant
            n == prev@.len(),
            i <= n,
            out@.len() == i,
            forall|k: int|
                0 <= k < i ==> strings_view(#[trigger] out@[k]@) == restore_shell_spec(
                    saved_view(prev@),
                )[k],
        decreases n - i,
    {
        let args = restore_dns_args(&prev[i].0, &prev[i].1);
        out.push(args);
        i = i + 1;
    }
    out
}

/// The runtime keys of the setup keys whose write succeeded, in order.
pub open spec fn written_state_keys(setup: Seq<Seq<char>>, written: Seq<bool>) -> Seq<Seq<char>> {
    crate::parse::flagged(setup.map_values(|k: Seq<char>| state_dns_key(k)), written)
}

/// The native record holds exactly the runtime keys that were written, in
/// the order of the setup keys: for every `i` with `written[i]` the key
/// `State:/Network/Service/<last segment of setup[i]>/DNS` is recorded (so a
/// restore removes it), and every recorded key is that of a written service,
/// taken at strictly increasing positions.
pub proof fn law_macos_records_every_written_key(setup: Seq<Seq<char>>, written: Seq<bool>)
    requires
        setup.len() == written.len(),
    ensures
        forall|i: int|
            0 <= i < setup.len() && #[trigger] written[i] ==> written_state_keys(
                setup,
                written,
            ).contains("State:/Network/Service/"@ + last_segment(setup[i]) + "/DNS"@),
        exists|idx: Seq<int>|
            #![trigger idx.len()]
            idx.len() == written_state_keys(setup, written).len() && (forall|k: int|
                0 <= k < idx.len() ==> 0 <= #[trigger] idx[k] < setup.len() && written[idx[k]]
                    && written_state_keys(setup, written)[k] == "State:/Network/Service/"@
                    + last_segment(setup[idx[k]]) + "/DNS"@) && (forall|k: int, l: int|
                0 <= k < l < idx.len() ==> idx[k] < idx[l]) && (forall|i: int|
                0 <= i < setup.len() && #[trigger] written[i] ==> exists|k: int|
                    0 <= k < idx.len() && idx[k] == i),
{
    let items = setup.map_values(|k: Seq<char>| state_dns_key(k));
    let r = written_state_keys(setup, written);
    let idx = crate::parse::lemma_flagged_selects(items, written);
    assert forall|i: int| 0 <= i < setup.len() && #[trigger] written[i] implies r.contains(
        "State:/Network/Service/"@ + last_segment(setup[i]) + "/DNS"@,
    ) by {
        let k = choose|k: int| 0 <= k < idx.len() && idx[k] == i;
        assert(r[k] == items[i]);
    }
    assert forall|k: int| 0 <= k < idx.len() implies 0 <= #[trigger] idx[k] < setup.len()
        && written[idx[k]] && r[k] == "State:/Network/Service/"@ + last_segment(setup[idx[k]])
        + "/DNS"@ by {
        assert(items[idx[k]] == state_dns_key(setup[idx[k]]));
    }
}

/// How DNS was applied on macOS, so a restore takes the matching path.
pub enum MacosApplied {
    /// Nothing applied.
    Unset,
    /// The runtime `State:/…/DNS` keys that were set.
    Native(Vec<String>),
    /// Each service, with the DNS servers it had before (empty: DHCP).
    Shell(Vec<(String, Vec<String>)>),
}

/// What undoing a macOS redirect takes.
pub enum MacosRestore {
    Nothing,
    /// Remove these runtime keys.
    RemoveKeys(Vec<String>),
    /// Run `networksetup` with each of these argument lists.
    RunNetworksetup(Vec<Vec<String>>),
}

/// The macOS redirector's record of what it applied.
pub struct MacosRedirector {
    pub applied: MacosApplied,
}

/// The model of a macOS record.
pub enum MacosAppliedView {
    Unset,
    Native(Seq<Seq<char>>),
    Shell(Seq<(Seq<char>, Seq<Seq<char>>)>),
}

/// The model of a macOS restore.
pub enum MacosRestoreView {
    Nothing,
    RemoveKeys(Seq<Seq<char>>),
    RunNetworksetup(Seq<Seq<Seq<char>>>),
}

impl View for MacosRedirector {
    type V = MacosAppliedView;

    open spec fn view(&self) -> MacosAppliedView {
        match self.applied {
            MacosApplied::Unset => MacosAppliedView::Unset,
            MacosApplied::Native(k) => MacosAppliedView::Native(strings_view(k@)),
            MacosApplied::Shell(s) => MacosAppliedView::Shell(saved_view(s@)),
        }
    }
}

pub open spec fn macos_restore_view(r: MacosRestore) -> MacosRestoreView {
    match r {
        MacosRestore::Nothing => MacosRestoreView::Nothing,
        MacosRestore::RemoveKeys(k) => MacosRestoreView::RemoveKeys(strings_view(k@)),
        MacosRestore::RunNetworksetup(c) => MacosRestoreView::RunNetworksetup(
            c@.map_values(|v: Vec<String>| strings_view(v@)),
        ),
    }
}

/// A macOS restore: remove the runtime keys that were set, or give each
/// service back the servers it had; then forget the record.
pub open spec fn macos_restore_spec(a: MacosAppliedView) -> (MacosAppliedView, MacosRestoreView) {
    match a {
        MacosAppliedView::Unset => (MacosAppliedView::Unset, MacosRestoreView::Nothing),
        MacosAppliedView::Native(k) => (MacosAppliedView::Unset, MacosRestoreView::RemoveKeys(k)),
        MacosAppliedView::Shell(s) => (
            MacosAppliedView::Unset,
            MacosRestoreView::RunNetworksetup(restore_shell_spec(s)),
        ),
    }
}

/// Restoring undoes what was applied and a second restore does nothing; a
/// service set through `networksetup` gets back exactly its saved servers
/// (or DHCP when it had none).
pub proof fn law_macos_restore_idempotent(a: MacosAppliedView)
    ensures
        macos_restore_spec(macos_restore_spec(a).0).1 == MacosRestoreView::Nothing,
        macos_restore_spec(macos_restore_spec(a).0).0 == macos_restore_spec(a).0,
        a matches MacosAppliedView::Shell(s) ==> (macos_restore_spec(a).1 matches MacosRestoreView::RunNetworksetup(c)
            && c.len() == s.len() && forall|i: int| 0 <= i < s.len() ==> #[trigger] c[i]
            == restore_dns_args_spec(s[i].0, s[i].1)),
{
}

impl MacosRedirector {
    pub fn new() -> (r: Self)
        ensures
            r.applied is Unset,
    {
        MacosRedirector { applied: MacosApplied::Unset }
    }

    /// Records the runtime keys that were set; setting none is an error and
    /// records nothing.
    pub fn applied_native(&mut self, keys: Vec<String>) -> (r: Result<(), RedirectError>)
        ensures
            keys@.len() == 0 ==> r == Err::<(), RedirectError>(RedirectError::NoServiceAccepted)
                && final(self).applied == old(self).applied,
            keys@.len() > 0 ==> r is Ok && (final(self).applied matches MacosApplied::Native(k)
                && strings_view(k@) == strings_view(keys@)),
    {
        if keys.len() == 0 {
            return Err(RedirectError::NoServiceAccepted);
        }
        self.applied = MacosApplied::Native(keys);
        Ok(())
    }

    /// Records the outcome of the native writes: `written[i]` tells whether
    /// the runtime key of `setup_keys[i]` was set. The keys that were set are
    /// recorded; when none was, that is an error and nothing is recorded.
    pub fn settle_native_keys(&mut self, setup_keys: &Vec<String>, written: &Vec<bool>) -> (r: Result<
        (),
        RedirectError,
    >)
        requires
            written@.len() == setup_keys@.len(),
        ensures
            written_state_keys(strings_view(setup_keys@), written@).len() == 0 ==> r == Err::<
                (),
                RedirectError,
            >(RedirectError::NoServiceAccepted) && final(self)@ == old(self)@,
            written_state_keys(strings_view(setup_keys@), written@).len() > 0 ==> r is Ok && final(self)@ == MacosAppliedView::Native(written_state_keys(strings_view(setup_keys@), written@)),
    {
        let mut keys: Vec<String> = Vec::new();
        let n = setup_keys.len();
        let mut i: usize = 0;
        while i < n
            invariant
                n == setup_keys@.len(),
                i <= n,
                strings_view(keys@) =~= strings_view(setup_keys@).take(i as int).map_values(
                    |k: Seq<char>| state_dns_key(k),
                ),
            decreases n - i,
        {
            let key = state_dns_path(setup_keys[i].as_str());
            let ghost before = keys@;
            keys.push(key);
            proof {
                assert(strings_view(keys@) =~= strings_view(before).push(key@));
                assert(strings_view(setup_keys@).take(i + 1) =~= strings_view(setup_keys@).take(
                    i as int,
                ).push(setup_keys@[i as int]@));
            }
            i = i + 1;
        }
        proof {
            assert(strings_view(setup_keys@).take(n as int) =~= strings_view(setup_keys@));
            assert(strings_view(keys@).len() == keys@.len());
        }
        let set = crate::parse::keep_flagged(keys, written);
        proof {
            assert(strings_view(set@).len() == set@.len());
        }
        self.applied_native(set)
    }

    /// Checks that there is a network service to redirect.
    pub fn check_services(services: &Vec<String>) -> (r: Result<(), RedirectError>)
        ensures
            r is Err <==> services@.len() == 0,
            r is Err ==> r == Err::<(), RedirectError>(RedirectError::NoNetworkServices),
    {
        if services.len() == 0 {
            Err(RedirectError::NoNetworkServices)
        } else {
            Ok(())
        }
    }

    /// Records the services set through `networksetup`, with their previous
    /// servers.
    pub fn applied_shell(&mut self, saved: Vec<(String, Vec<String>)>)
        ensures
            final(self).applied matches MacosApplied::Shell(s) && saved_view(s@) == saved_view(saved@),
    {
        self.applied = MacosApplied::Shell(saved);
    }

    /// What restoring the pre-connect DNS takes; the record returns to unset.
    pub fn restore(&mut self) -> (r: MacosRestore)
        ensures
            (final(self)@, macos_restore_view(r)) == macos_restore_spec(old(self)@),
            final(self).applied is Unset,
            old(self).applied is Unset ==> r is Nothing,
            old(self).applied matches MacosApplied::Native(k) ==> (r matches MacosRestore::RemoveKeys(
                m,
            ) && strings_view(m@) == strings_view(k@)),
            old(self).applied matches MacosApplied::Shell(saved) ==> (r matches MacosRestore::RunNetworksetup(
                cmds,
            ) && cmds@.len() == saved@.len() && forall|i: int|
                0 <= i < cmds@.len() ==> strings_view(#[trigger] cmds@[i]@) == restore_shell_spec(
                    saved_view(saved@),
                )[i]),
    {
        let mut prev = MacosApplied::Unset;
        std::mem::swap(&mut prev, &mut self.applied);
        match prev {
            MacosApplied::Unset => MacosRestore::Nothing,
            MacosApplied::Native(keys) => MacosRestore::RemoveKeys(keys),
            MacosApplied::Shell(saved) => {
                let cmds = restore_shell(&saved);
                proof {
                    assert(cmds@.map_values(|v: Vec<String>| strings_view(v@)) =~= restore_shell_spec(
                        saved_view(saved@),
                    ));
                }
                MacosRestore::RunNetworksetup(cmds)
            },
        }
    }
}

} // verus!
