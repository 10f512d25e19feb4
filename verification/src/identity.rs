//! Host identity resolution.
//!
//! A declared host identity is resolved, once at startup, into the
//! targeting value that accompanies every subscription request; the remote
//! service uses it to select a release cohort.

use std::str::FromStr;
use vstd::prelude::*;

verus! {

/// How this host identifies itself towards the remote service.
pub enum HostIdentity {
    /// Target by this machine's hostname.
    HostName,
    /// Target by membership in an address block, given as a CIDR literal.
    HostCidr { cidr: String },
    /// Target by an arbitrary opaque string, passed through unchanged.
    Custom { custom: String },
}

/// The targeting value sent with every subscription request. Resolved once
/// at startup and shared read-only by every watch loop.
#[derive(Clone, Debug)]
pub enum TargetingValue {
    HostName,
    HostCidr(cidr_utils::cidr::IpCidr),
    Custom(String),
}

/// The failure of resolving a host identity. It is fatal: the daemon must
/// not start with an unresolvable identity.
#[derive(Clone, Copy, Debug, PartialEq, Eq, Structural)]
pub enum ResolveError {
    InvalidHostSpec,
}

#[verifier::external_type_specification]
#[verifier::external_body]
pub struct ExIpCidr(cidr_utils::cidr::IpCidr);

/// Relies on the derived `Clone` of cidr's `IpCidr`, a `Copy` enum of two
/// plain-data variants: the clone is the value itself.
pub assume_specification[ <cidr_utils::cidr::IpCidr as Clone>::clone ](
    c: &cidr_utils::cidr::IpCidr,
) -> (r: cidr_utils::cidr::IpCidr)
    ensures
        r == *c,
;

/// Whether the characters form a CIDR literal that the parser accepts;
/// a function of the characters alone.
pub uninterp spec fn cidr_valid(s: Seq<char>) -> bool;

/// Relies on the `FromStr` impl of cidr's `IpCidr` (re-exported by
/// cidr_utils): parsing never panics and succeeds exactly on well-formed
/// CIDR literals, a function of the characters alone.
#[verifier::external_body]
fn parse_cidr(s: &str) -> (r: Option<cidr_utils::cidr::IpCidr>)
    ensures
        r is Some <==> cidr_valid(s@),
{
    cidr_utils::cidr::IpCidr::from_str(s).ok()
}

/// Whether resolving the identity succeeds: always, except for an address
/// block whose CIDR literal the parser rejects.
pub open spec fn resolve_ok(host: HostIdentity) -> bool {
    match host {
        HostIdentity::HostCidr { cidr } => cidr_valid(cidr@),
        _ => true,
    }
}

/// How a targeting value corresponds to the identity it was resolved from.
pub open spec fn resolved_matches(host: HostIdentity, t: TargetingValue) -> bool {
    match host {
        HostIdentity::HostName => t is HostName,
        HostIdentity::HostCidr { cidr } => t is HostCidr,
        HostIdentity::Custom { custom } => t matches TargetingValue::Custom(v) && v@ == custom@,
    }
}

/// Resolves a declared host identity into the targeting value. A hostname
/// or custom identity never fails; an address-block identity fails with
/// `InvalidHostSpec` exactly when its CIDR literal is malformed.
pub fn resolve(host: &HostIdentity) -> (r: Result<TargetingValue, ResolveError>)
    ensures
        r is Ok <==> resolve_ok(*host),
        r matches Ok(t) ==> resolved_matches(*host, t),
        r matches Err(e) ==> e == ResolveError::InvalidHostSpec,
{
    match host {
        HostIdentity::HostName => Ok(TargetingValue::HostName),
        HostIdentity::HostCidr { cidr } => match parse_cidr(cidr.as_str()) {
            Some(block) => Ok(TargetingValue::HostCidr(block)),
            None => Err(ResolveError::InvalidHostSpec),
        },
        HostIdentity::Custom { custom } => Ok(TargetingValue::Custom(custom.clone())),
    }
}

} // verus!
