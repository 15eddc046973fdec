//! The closed sets of values a geolocation record is reported in.

use vstd::prelude::*;

verus! {

/// Connection speed.
///
/// These connection speeds imply different latencies, as well as throughput.
#[derive(Copy, Clone, Debug, PartialEq, Eq, Structural)]
pub enum ConnSpeed {
    Broadband,
    Cable,
    Dialup,
    Mobile,
    Oc12,
    Oc3,
    Satellite,
    T1,
    T3,
    UltraBroadband,
    Wireless,
    Xdsl,
    Other,
}

/// Connection type.
///
/// `Unknown` when the connection type is not known; `Other` for a
/// connection that the database knows and this library does not.
#[derive(Copy, Clone, Debug, PartialEq, Eq, Structural)]
pub enum ConnType {
    Wired,
    Wifi,
    Mobile,
    Dialup,
    Satellite,
    Unknown,
    Other,
}

/// Continent.
#[derive(Copy, Clone, Debug, PartialEq, Eq, Structural)]
pub enum Continent {
    Africa,
    Antarctica,
    Asia,
    Europe,
    NorthAmerica,
    Oceania,
    SouthAmerica,
    Other,
}

/// Client proxy description.
///
/// `Unknown` when an address is not known to be a proxy or VPN.
#[derive(Copy, Clone, Debug, PartialEq, Eq, Structural)]
pub enum ProxyDescription {
    /// Ubiquitous network access to a shared pool of configurable
    /// computing resources.
    Cloud,
    /// A host that reaches the internet through a web security and data
    /// protection cloud provider.
    CloudSecurity,
    /// A proxy used by overriding the client's DNS value for an endpoint
    /// host with that of the proxy.
    Dns,
    /// A gateway node where encrypted or anonymous Tor traffic reaches the
    /// internet.
    TorExit,
    /// A node that receives traffic on the Tor network and passes it along.
    TorRelay,
    /// A virtual private network that encrypts and routes all traffic
    /// through the VPN server.
    Vpn,
    /// A mobile browser that proxies its user through a central location.
    WebBrowser,
    /// An address that is not known to be a proxy or VPN.
    Unknown,
    /// A proxy or VPN that is known, but not among the variants above.
    Other,
}

/// Client proxy type.
///
/// `Unknown` when an address is not known to be a proxy or VPN.
#[derive(Copy, Clone, Debug, PartialEq, Eq, Structural)]
pub enum ProxyType {
    Anonymous,
    Aol,
    Blackberry,
    Corporate,
    Edu,
    Hosting,
    Public,
    Transparent,
    Unknown,
    Other,
}

} // verus!
