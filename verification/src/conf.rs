//! The nameservers that the system's resolver configuration names. Reading
//! the file's format is the work of the `resolv_conf` crate; what this module
//! states of it is believed, not proved.
use vstd::prelude::*;
use crate::addr::{IpAddress, Ipv4};

verus! {

/// A parsed resolver configuration.
#[verifier::external_type_specification]
#[verifier::external_body]
pub struct ExConfig(resolv_conf::Config);

/// The address of a nameserver, with the scope that an IPv6 address may
/// carry.
#[verifier::external_type_specification]
#[verifier::external_body]
pub struct ExScopedIp(resolv_conf::ScopedIp);

/// The nameservers that a parsed configuration names, in the order of the
/// file. There are none where the file names none.
pub uninterp spec fn nameservers_of(config: resolv_conf::Config) -> Seq<IpAddress>;

/// The address of a nameserver, without its scope.
pub uninterp spec fn address_of(nameserver: resolv_conf::ScopedIp) -> IpAddress;

/// The nameservers that the text of a resolver configuration names, or
/// nothing where the text is refused.
pub uninterp spec fn configured(conf: Seq<u8>) -> Option<Seq<IpAddress>>;

/// The addresses of a row of nameservers.
pub open spec fn addresses_of(nameservers: Seq<resolv_conf::ScopedIp>) -> Seq<IpAddress> {
    Seq::new(nameservers.len(), |i: int| address_of(nameservers[i]))
}

/// Calls `resolv_conf::Config::parse`, which refuses a text with its first
/// error.
#[verifier::external_body]
pub(crate) fn parse_config(conf: &[u8]) -> (r: Result<
    resolv_conf::Config,
    resolv_conf::ParseError,
>)
    ensures
        match r {
            Ok(config) => configured(conf@) == Some(nameservers_of(config)),
            Err(_) => configured(conf@) is None,
        },
{
    resolv_conf::Config::parse(conf)
}

/// Hands out the field `nameservers` of a `Config`: the nameservers that
/// the file names, and none where it names none.
#[verifier::external_body]
pub(crate) fn nameservers(config: &resolv_conf::Config) -> (r: Vec<resolv_conf::ScopedIp>)
    ensures
        addresses_of(r@) == nameservers_of(*config),
{
    config.nameservers.clone()
}

/// Takes the address out of a `ScopedIp`, as its conversion to the standard
/// library's `IpAddr` does: the scope is dropped.
#[verifier::external_body]
pub(crate) fn address(nameserver: &resolv_conf::ScopedIp) -> (r: IpAddress)
    ensures
        r == address_of(*nameserver),
{
    match nameserver {
        resolv_conf::ScopedIp::V4(a) => {
            let o = a.octets();
            IpAddress::V4(Ipv4(o[0], o[1], o[2], o[3]))
        },
        resolv_conf::ScopedIp::V6(a, _) => IpAddress::V6(a.to_bits()),
    }
}

} // verus!
