//! What a gateway reports of itself when asked how it is.

use crate::config::Settings;
use crate::vpn::{is_success, status_is_success, ControlReply};
use vstd::prelude::*;

verus! {

/// The control port that stands for "no VPN of its own".
pub const NO_VPN_PORT: u16 = 8000;

/// Seconds that the control endpoint is given when the gateway reports on itself.
pub const HEALTH_TIMEOUT_SECS: u64 = 5;

/// How the key-value store is.
#[derive(Clone, Copy, Debug, PartialEq, Eq, Structural)]
pub enum StoreHealth {
    /// It answers.
    Connected,
    /// It is configured and does not answer.
    Error,
    /// There is none.
    Disconnected,
}

/// How the VPN is.
#[derive(Clone, Copy, Debug, PartialEq, Eq, Structural)]
pub enum VpnHealth {
    /// The control endpoint told the public address.
    Connected,
    /// The control endpoint answered with this status.
    ErrorStatus(u16),
    /// The control endpoint did not answer.
    Unreachable,
}

/// What a gateway reports of itself.
#[derive(Clone, Debug, PartialEq, Eq)]
pub struct HealthReport {
    pub instance_id: String,
    pub instance_region: String,
    pub port: u16,
    pub redis: StoreHealth,
    pub caching_enabled: bool,
    /// How the VPN is, where the gateway has one and something is known of it.
    pub vpn: Option<VpnHealth>,
}

/// How the store is, by whether there is one and whether it answered a ping.
pub open spec fn store_health(ping: Option<bool>) -> StoreHealth {
    match ping {
        Some(true) => StoreHealth::Connected,
        Some(false) => StoreHealth::Error,
        None => StoreHealth::Disconnected,
    }
}

/// How the VPN is, by what the control endpoint answered when asked for the
/// public address. An answer of success that cannot be read tells nothing.
pub open spec fn vpn_health_of(reply: ControlReply, readable: bool) -> Option<VpnHealth> {
    match reply {
        ControlReply::Status(status) => if is_success(status) {
            if readable {
                Some(VpnHealth::Connected)
            } else {
                None
            }
        } else {
            Some(VpnHealth::ErrorStatus(status))
        },
        ControlReply::Unreachable => Some(VpnHealth::Unreachable),
    }
}

impl StoreHealth {
    /// The word for the report.
    pub fn as_str(&self) -> (word: &'static str)
        ensures
            word@ == (match *self {
                StoreHealth::Connected => "connected"@,
                StoreHealth::Error => "error"@,
                StoreHealth::Disconnected => "disconnected"@,
            }),
    {
        match self {
            StoreHealth::Connected => "connected",
            StoreHealth::Error => "error",
            StoreHealth::Disconnected => "disconnected",
        }
    }
}

/// True when the gateway has a VPN of its own to report on.
pub fn checks_vpn(settings: &Settings) -> (wanted: bool)
    ensures
        wanted == (settings.gluetun_control_port != NO_VPN_PORT),
{
    settings.gluetun_control_port != NO_VPN_PORT
}

/// How the VPN is, by what the control endpoint answered.
pub fn vpn_health(reply: ControlReply, readable: bool) -> (health: Option<VpnHealth>)
    ensures
        health == vpn_health_of(reply, readable),
{
    match reply {
        ControlReply::Status(status) => {
            if status_is_success(status) {
                if readable {
                    Some(VpnHealth::Connected)
                } else {
                    None
                }
            } else {
                Some(VpnHealth::ErrorStatus(status))
            }
        },
        ControlReply::Unreachable => Some(VpnHealth::Unreachable),
    }
}

/// The report of a gateway.
///
/// `ping` is whether the store answered, where there is a store; `vpn` is
/// what the control endpoint answered, where it was asked. A gateway without
/// a VPN of its own reports nothing of one.
pub fn health_handler(settings: &Settings, ping: Option<bool>, vpn: Option<(ControlReply, bool)>) -> (report:
    HealthReport)
    ensures
        report.instance_id@ == settings.instance_id@,
        report.instance_region@ == settings.instance_region@,
        report.port == settings.port,
        report.redis == store_health(ping),
        report.caching_enabled == ping is Some,
        report.vpn == (if settings.gluetun_control_port != NO_VPN_PORT {
            match vpn {
                Some(answer) => vpn_health_of(answer.0, answer.1),
                None => None,
            }
        } else {
            None
        }),
{
    let redis: StoreHealth = match ping {
        Some(true) => StoreHealth::Connected,
        Some(false) => StoreHealth::Error,
        None => StoreHealth::Disconnected,
    };
    let vpn_state: Option<VpnHealth> = if checks_vpn(settings) {
        match vpn {
            Some(answer) => vpn_health(answer.0, answer.1),
            None => None,
        }
    } else {
        None
    };
    HealthReport {
        instance_id: settings.instance_id.clone(),
        instance_region: settings.instance_region.clone(),
        port: settings.port,
        redis,
        caching_enabled: ping.is_some(),
        vpn: vpn_state,
    }
}

} // verus!
