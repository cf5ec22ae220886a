//! What the gateway sends and takes, member by member.

use crate::json::JsonValue;
use vstd::prelude::*;

verus! {

/// `serde_json::Value`: a JSON value that is carried through unread.
#[verifier::external_type_specification]
#[verifier::external_body]
pub struct ExValue(serde_json::Value);

/// The clone of a `serde_json::Value` is the value again.
pub assume_specification[ <serde_json::Value as Clone>::clone ](
    value: &serde_json::Value,
) -> (copy: serde_json::Value)
    ensures
        copy == *value,
;

/// The answer to a login.
#[derive(Debug, Clone, Default)]
pub struct AuthResponse {
    pub auth: Option<AuthData>,
}

#[derive(Debug, Clone, Default)]
pub struct AuthData {
    pub token: Option<String>,
}

/// What the gateway says of itself.
#[derive(Debug, Clone, Default)]
pub struct GatewayInfo {
    pub device: Option<Device>,
    pub signal: Option<Signal>,
    pub time: Option<TimeInfo>,
}

#[derive(Debug, Clone, Default)]
pub struct Device {
    pub friendly_name: Option<String>,
    pub hardware_version: Option<String>,
    pub manufacturer: Option<String>,
    pub model: Option<String>,
    pub name: Option<String>,
    pub serial: Option<String>,
    pub software_version: Option<String>,
    pub update_state: Option<String>,
}

/// The part of the gateway's signal report that is shown with the gateway; the
/// radios are read from the cell report.
#[derive(Debug, Clone, Default)]
pub struct Signal {
    pub generic: Option<GenericSignal>,
}

#[derive(Debug, Clone, Default)]
pub struct GenericSignal {
    pub apn: Option<String>,
    pub has_ipv6: Option<bool>,
    pub registration: Option<String>,
    pub roaming: Option<bool>,
}

#[derive(Debug, Clone, Default)]
pub struct TimeInfo {
    pub local_time: Option<i64>,
    pub uptime: Option<i64>,
}

/// The cell report: one free-form document for each radio.
#[derive(Debug, Default)]
pub struct CellRoot {
    pub cell: Option<CellData>,
}

#[derive(Debug, Default)]
pub struct CellData {
    pub four_g: Option<JsonValue>,
    pub five_g: Option<JsonValue>,
}

#[derive(Debug, Clone, Default)]
pub struct SimRoot {
    pub sim: Option<SimData>,
}

#[derive(Debug, Clone, Default)]
pub struct SimData {
    pub icc_id: Option<String>,
    pub imei: Option<String>,
    pub imsi: Option<String>,
    pub msisdn: Option<String>,
    pub status: Option<bool>,
}

#[derive(Debug, Clone, Default)]
pub struct ClientRoot {
    pub clients: Option<ClientBands>,
}

/// The connected clients, by how they are connected.
#[derive(Debug, Clone, Default)]
pub struct ClientBands {
    pub two_gig: Option<Vec<ClientDevice>>,
    pub five_gig: Option<Vec<ClientDevice>>,
    pub six_gig: Option<Vec<ClientDevice>>,
    pub wifi: Option<Vec<ClientDevice>>,
    pub ethernet: Option<Vec<ClientDevice>>,
}

#[derive(Debug, Clone, Default)]
pub struct ClientDevice {
    pub connected: Option<bool>,
    pub ipv4: Option<String>,
    pub ipv6: Option<Vec<String>>,
    pub mac: Option<String>,
    pub name: Option<String>,
}

/// The Wi-Fi configuration, as it is read and written back.
#[derive(Debug, Default, PartialEq)]
pub struct WifiConfig {
    pub two_gig: Option<BandConfig>,
    pub five_gig: Option<BandConfig>,
    pub six_gig: Option<BandConfig>,
    pub band_steering: Option<serde_json::Value>,
    pub ssids: Option<Vec<SsidConfig>>,
}

#[derive(Debug, Default, PartialEq)]
pub struct BandConfig {
    pub airtime_fairness: Option<bool>,
    pub channel: Option<String>,
    pub channel_bandwidth: Option<String>,
    pub is_mu_mimo_enabled: Option<bool>,
    pub is_radio_enabled: Option<bool>,
    pub is_wmm_enabled: Option<bool>,
    pub max_clients: Option<i64>,
    pub mode: Option<String>,
    pub transmission_power: Option<String>,
}

#[derive(Debug, Default, PartialEq)]
pub struct SsidConfig {
    pub two_gig_ssid: Option<bool>,
    pub five_gig_ssid: Option<bool>,
    pub six_gig_ssid: Option<bool>,
    pub encryption_mode: Option<String>,
    pub encryption_version: Option<String>,
    pub guest: Option<bool>,
    pub is_broadcast_enabled: Option<bool>,
    pub ssid_name: Option<String>,
    pub wpa_key: Option<String>,
}

impl Clone for BandConfig {
    fn clone(&self) -> (copy: Self)
        ensures
            copy == *self,
    {
        BandConfig {
            airtime_fairness: self.airtime_fairness,
            channel: self.channel.clone(),
            channel_bandwidth: self.channel_bandwidth.clone(),
            is_mu_mimo_enabled: self.is_mu_mimo_enabled,
            is_radio_enabled: self.is_radio_enabled,
            is_wmm_enabled: self.is_wmm_enabled,
            max_clients: self.max_clients,
            mode: self.mode.clone(),
            transmission_power: self.transmission_power.clone(),
        }
    }
}

impl Clone for SsidConfig {
    fn clone(&self) -> (copy: Self)
        ensures
            copy == *self,
    {
        SsidConfig {
            two_gig_ssid: self.two_gig_ssid,
            five_gig_ssid: self.five_gig_ssid,
            six_gig_ssid: self.six_gig_ssid,
            encryption_mode: self.encryption_mode.clone(),
            encryption_version: self.encryption_version.clone(),
            guest: self.guest,
            is_broadcast_enabled: self.is_broadcast_enabled,
            ssid_name: self.ssid_name.clone(),
            wpa_key: self.wpa_key.clone(),
        }
    }
}

/// A Wi-Fi configuration as a value: its networks are a sequence.
pub struct WifiConfigView {
    pub two_gig: Option<BandConfig>,
    pub five_gig: Option<BandConfig>,
    pub six_gig: Option<BandConfig>,
    pub band_steering: Option<serde_json::Value>,
    pub ssids: Option<Seq<SsidConfig>>,
}

impl View for WifiConfig {
    type V = WifiConfigView;

    open spec fn view(&self) -> WifiConfigView {
        WifiConfigView {
            two_gig: self.two_gig,
            five_gig: self.five_gig,
            six_gig: self.six_gig,
            band_steering: self.band_steering,
            ssids: match self.ssids {
                Some(list) => Some(list@),
                None => None,
            },
        }
    }
}

impl Clone for WifiConfig {
    fn clone(&self) -> (copy: Self)
        ensures
            copy@ == self@,
    {
        let ssids = match &self.ssids {
            Some(list) => {
                let copied: Vec<SsidConfig> = list.clone();
                assert(copied@ =~= list@);
                Some(copied)
            },
            None => None,
        };
        WifiConfig {
            two_gig: self.two_gig.clone(),
            five_gig: self.five_gig.clone(),
            six_gig: self.six_gig.clone(),
            band_steering: self.band_steering.clone(),
            ssids,
        }
    }
}

} // verus!
