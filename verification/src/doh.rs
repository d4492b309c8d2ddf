//! What the local DNS → DoH proxy forwards to: the DoH endpoint of each
//! upstream selection, and the extra certificate authorities it may trust.

use vstd::prelude::*;

use crate::net::{IpAddress, ip_parse, parse_ip_addr};
use crate::proto::{UpstreamSel, UpstreamView, opt_view};
use crate::text::strings_view;

verus! {

/// The hosted resolvers whose endpoint lists the DNS library ships.
#[derive(Debug, Clone, Copy, PartialEq, Eq, Structural)]
pub enum DohPreset {
    Cloudflare,
    Google,
    Quad9,
}

/// One DoH endpoint: the bootstrap address, the TLS name, the query path, and
/// the port (`None`: the HTTPS default, 443).
pub struct DohEndpoint {
    pub ip: IpAddress,
    pub hostname: String,
    pub path: String,
    pub port: Option<u16>,
}

/// Where an upstream selection forwards to.
pub enum UpstreamPlan {
    Preset(DohPreset),
    Endpoint(DohEndpoint),
}

pub enum UpstreamPlanView {
    Preset(DohPreset),
    Endpoint { ip: IpAddress, hostname: Seq<char>, path: Seq<char>, port: Option<u16> },
}

pub open spec fn plan_view(p: UpstreamPlan) -> UpstreamPlanView {
    match p {
        UpstreamPlan::Preset(x) => UpstreamPlanView::Preset(x),
        UpstreamPlan::Endpoint(e) => UpstreamPlanView::Endpoint {
            ip: e.ip,
            hostname: e.hostname@,
            path: e.path@,
            port: e.port,
        },
    }
}

/// Why an upstream selection has no endpoint: the custom bootstrap IP does
/// not parse.
#[derive(Debug, Clone, Copy, PartialEq, Eq, Structural)]
pub enum UpstreamPlanError {
    CustomIp,
}

pub open spec fn plan_error_text(e: UpstreamPlanError) -> Seq<char> {
    match e {
        UpstreamPlanError::CustomIp => "custom DoH bootstrap IP: invalid IP address syntax"@,
    }
}

impl UpstreamPlanError {
    /// The error's message, with the address parser's reason after a colon.
    pub fn message(&self) -> (r: String)
        ensures
            r@ == plan_error_text(*self),
    {
        match self {
            UpstreamPlanError::CustomIp => "custom DoH bootstrap IP: invalid IP address syntax".to_owned(),
        }
    }
}

/// The fixed bootstrap address of the voidns endpoint, `1.1.1.1`, so the proxy
/// never has to resolve its own upstream.
pub open spec fn voidns_doh_ip() -> IpAddress {
    IpAddress::V4([1u8, 1u8, 1u8, 1u8])
}

/// The fixed bootstrap address of the voidns endpoint.
pub fn voidns_bootstrap_ip() -> (r: IpAddress)
    ensures
        r == voidns_doh_ip(),
{
    IpAddress::V4([1, 1, 1, 1])
}

/// The TLS name of the voidns endpoint.
pub open spec fn voidns_doh_host() -> Seq<char> {
    "cloudflare-dns.com"@
}

/// The query path of the voidns endpoint.
pub open spec fn voidns_doh_path() -> Seq<char> {
    "/dns-query"@
}

/// The bootstrap text an upstream selection needs parsed: the custom
/// endpoint's IP; none for a hosted resolver or voidns.
pub open spec fn bootstrap_text(u: UpstreamView) -> Option<Seq<char>> {
    match u {
        UpstreamView::Custom { ip, .. } => Some(ip),
        _ => None,
    }
}

/// Where an upstream selection forwards to, given what its bootstrap text
/// parsed to: the library's endpoint list for a hosted resolver; the fixed
/// voidns endpoint on the default port; or the custom endpoint on its own
/// port. A custom bootstrap text that did not parse is an error.
pub open spec fn plan_from_bootstrap(u: UpstreamView, bootstrap: Option<IpAddress>) -> Result<
    UpstreamPlanView,
    UpstreamPlanError,
> {
    match u {
        UpstreamView::Cloudflare => Ok(UpstreamPlanView::Preset(DohPreset::Cloudflare)),
        UpstreamView::Google => Ok(UpstreamPlanView::Preset(DohPreset::Google)),
        UpstreamView::Quad9 => Ok(UpstreamPlanView::Preset(DohPreset::Quad9)),
        UpstreamView::Voidns => Ok(
            UpstreamPlanView::Endpoint {
                ip: voidns_doh_ip(),
                hostname: voidns_doh_host(),
                path: voidns_doh_path(),
                port: None,
            },
        ),
        UpstreamView::Custom { hostname, path, port, .. } => match bootstrap {
            Some(a) => Ok(UpstreamPlanView::Endpoint { ip: a, hostname, path, port: Some(port) }),
            None => Err(UpstreamPlanError::CustomIp),
        },
    }
}

/// Where an upstream selection forwards to, its bootstrap text parsed by the
/// address parser.
pub open spec fn upstream_plan_spec(u: UpstreamView) -> Result<UpstreamPlanView, UpstreamPlanError> {
    plan_from_bootstrap(
        u,
        match bootstrap_text(u) {
            Some(t) => ip_parse(t),
            None => None,
        },
    )
}

/// The plan for an upstream selection once its bootstrap text has been
/// parsed (`bootstrap`; ignored for a hosted resolver and for voidns).
pub fn plan_with_bootstrap(upstream: &UpstreamSel, bootstrap: Option<IpAddress>) -> (r: Result<
    UpstreamPlan,
    UpstreamPlanError,
>)
    ensures
        match r {
            Ok(p) => plan_from_bootstrap(upstream@, bootstrap) == Ok::<
                UpstreamPlanView,
                UpstreamPlanError,
            >(plan_view(p)),
            Err(e) => plan_from_bootstrap(upstream@, bootstrap) == Err::<
                UpstreamPlanView,
                UpstreamPlanError,
            >(e),
        },
{
    match upstream {
        UpstreamSel::Cloudflare => Ok(UpstreamPlan::Preset(DohPreset::Cloudflare)),
        UpstreamSel::Google => Ok(UpstreamPlan::Preset(DohPreset::Google)),
        UpstreamSel::Quad9 => Ok(UpstreamPlan::Preset(DohPreset::Quad9)),
        UpstreamSel::Voidns => Ok(
            UpstreamPlan::Endpoint(
                DohEndpoint {
                    ip: voidns_bootstrap_ip(),
                    hostname: "cloudflare-dns.com".to_owned(),
                    path: "/dns-query".to_owned(),
                    port: None,
                },
            ),
        ),
        UpstreamSel::Custom { hostname, path, port, .. } => match bootstrap {
            Some(a) => Ok(
                UpstreamPlan::Endpoint(
                    DohEndpoint {
                        ip: a,
                        hostname: hostname.clone(),
                        path: path.clone(),
                        port: Some(*port),
                    },
                ),
            ),
            None => Err(UpstreamPlanError::CustomIp),
        },
    }
}

/// Translates an upstream selection into the DoH endpoint(s) to forward to.
pub fn upstream_name_servers(upstream: &UpstreamSel) -> (r: Result<UpstreamPlan, UpstreamPlanError>)
    ensures
        match r {
            Ok(p) => upstream_plan_spec(upstream@) == Ok::<UpstreamPlanView, UpstreamPlanError>(
                plan_view(p),
            ),
            Err(e) => upstream_plan_spec(upstream@) == Err::<UpstreamPlanView, UpstreamPlanError>(
                e,
            ),
        },
{
    let bootstrap = match upstream {
        UpstreamSel::Custom { ip, .. } => parse_ip_addr(ip.as_str()),
        _ => None,
    };
    plan_with_bootstrap(upstream, bootstrap)
}

// ---------------------------------------------------------------- extra CAs

/// The byte views of a sequence of byte vectors.
pub open spec fn byte_vecs_view(v: Seq<Vec<u8>>) -> Seq<Seq<u8>> {
    v.map_values(|x: Vec<u8>| x@)
}

/// The DER certificates that the PEM reader finds in `pem`, in order, up to
/// the first malformed section, and that section's error message if there is
/// one.
pub uninterp spec fn pem_certificates(pem: Seq<u8>) -> (Seq<Seq<u8>>, Option<Seq<char>>);

/// `rustls_pemfile::certs` over the bytes, read up to its first error. Which
/// sections count as certificates and which texts are malformed (the PEM
/// grammar) is not written out: the contract names the outcome
/// `pem_certificates` of the bytes.
#[verifier::external_body]
fn scan_pem_certificates(pem: &[u8]) -> (r: (Vec<Vec<u8>>, Option<String>))
    ensures
        (byte_vecs_view(r.0@), opt_view(r.1)) == pem_certificates(pem@),
{
    let mut certs: Vec<Vec<u8>> = Vec::new();
    for item in rustls_pemfile::certs(&mut &pem[..]) {
        match item {
            Ok(cert) => certs.push(cert.to_vec()),
            Err(e) => return (certs, Some(e.to_string())),
        }
    }
    (certs, None)
}

/// Where an extra CA bundle comes from: the path given explicitly (then it
/// must be readable), or else the default path (read if it is there).
pub struct ExtraCaSource {
    pub path: String,
    pub required: bool,
}

/// Chooses the extra CA bundle: the override path when one is set, required;
/// otherwise the default path, optional.
pub fn extra_ca_source(env_override: Option<String>, default_path: String) -> (r: ExtraCaSource)
    ensures
        match env_override {
            Some(p) => r.path@ == p@ && r.required,
            None => r.path@ == default_path@ && !r.required,
        },
{
    match env_override {
        Some(p) => ExtraCaSource { path: p, required: true },
        None => ExtraCaSource { path: default_path, required: false },
    }
}

/// The default extra CA bundle path on systems other than Windows.
pub fn default_extra_ca_path() -> (r: String)
    ensures
        r@ == "/etc/voidns/extra-ca.pem"@,
{
    "/etc/voidns/extra-ca.pem".to_owned()
}

/// The default extra CA bundle location on Windows: a base directory and the
/// components to join onto it, in order, with the platform's path join
/// (`Path::join`), which gives `<base>\VoidNS\extra-ca.pem` for an ordinary
/// base.
pub struct WindowsCaPath {
    pub base: String,
    pub components: Vec<String>,
}

/// The base directory of the Windows default: `ProgramData` when it is set,
/// `C:\ProgramData` otherwise.
pub open spec fn windows_ca_base(program_data: Option<Seq<char>>) -> Seq<char> {
    match program_data {
        Some(p) => p,
        None => "C:\\ProgramData"@,
    }
}

/// The components joined onto the base, in order.
pub open spec fn windows_ca_components() -> Seq<Seq<char>> {
    seq!["VoidNS"@, "extra-ca.pem"@]
}

/// The default extra CA bundle location on Windows, given the `ProgramData`
/// directory if it is set. Joining the components onto the base is left to
/// `Path::join`, whose rules (separators, verbatim `\\?\` prefixes, drive-only
/// bases) belong to the platform's path type.
pub fn windows_default_extra_ca_path(program_data: Option<String>) -> (r: WindowsCaPath)
    ensures
        r.base@ == windows_ca_base(opt_view(program_data)),
        strings_view(r.components@) == windows_ca_components(),
{
    let base = match program_data {
        Some(p) => p,
        None => "C:\\ProgramData".to_owned(),
    };
    let components = crate::text::owned_strings(&["VoidNS", "extra-ca.pem"]);
    proof {
        assert(strings_view(components@) =~= windows_ca_components());
    }
    WindowsCaPath { base, components }
}

/// What to do with the extra CA bundle.
pub enum ExtraCaOutcome {
    /// Add these DER certificates to the trust store in order; then, if
    /// `parse_error` is set, fail with it.
    Trust { certs: Vec<Vec<u8>>, parse_error: Option<String> },
    /// No bundle at the optional default path: trust only the built-in roots.
    NotPresent,
    /// The explicitly requested bundle could not be read: fail.
    ReadFailed,
}

/// The message a malformed PEM section gives.
pub open spec fn pem_error_text(reason: Seq<char>) -> Seq<char> {
    "parse extra CA PEM: "@ + reason
}

/// The outcome for the PEM reader's result on a bundle that was read.
pub fn trust_from_scan(scan: (Vec<Vec<u8>>, Option<String>)) -> (r: ExtraCaOutcome)
    ensures
        r matches ExtraCaOutcome::Trust { certs, parse_error } && byte_vecs_view(certs@)
            == byte_vecs_view(scan.0@) && opt_view(parse_error) == match scan.1 {
            Some(e) => Some(pem_error_text(e@)),
            None => None,
        },
{
    let (certs, err) = scan;
    let parse_error = match err {
        Some(e) => Some(crate::text::concat_str("parse extra CA PEM: ", e.as_str())),
        None => None,
    };
    ExtraCaOutcome::Trust { certs, parse_error }
}

/// Decides what to trust once the bundle at `source` was read (`Some`
/// bytes) or could not be (`None`).
pub fn extra_ca_outcome(required: bool, read: Option<Vec<u8>>) -> (r: ExtraCaOutcome)
    ensures
        match read {
            Some(pem) => r matches ExtraCaOutcome::Trust { certs, parse_error }
                && byte_vecs_view(certs@) == pem_certificates(pem@).0 && opt_view(parse_error)
                == match pem_certificates(pem@).1 {
                Some(e) => Some(pem_error_text(e)),
                None => None,
            },
            None => if required {
                r is ReadFailed
            } else {
                r is NotPresent
            },
        },
{
    match read {
        Some(pem) => trust_from_scan(scan_pem_certificates(pem.as_slice())),
        None => if required {
            ExtraCaOutcome::ReadFailed
        } else {
            ExtraCaOutcome::NotPresent
        },
    }
}

} // verus!
