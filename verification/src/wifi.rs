//! Joining a wireless network: the stored settings, the match of a scan
//! against a network name, and the association workflow.

use crate::text::{password_as_str, password_bytes, ssid_bytes, ssid_eq};
use vstd::prelude::*;

verus! {

/// Why an attempt to join a network failed.
#[derive(Debug, PartialEq, Eq, Structural, Clone, Copy)]
pub enum MyceliumWifiError {
    /// The radio driver reported an error; the code is kept for diagnostics.
    Esp(i32),
    /// The radio did not start in time.
    Timeout,
    /// The link did not come up with an address in time.
    NoIp,
}

/// The credentials of a network, as they are kept between boots.
#[derive(Debug, PartialEq)]
pub struct MyceliumWifiSettings {
    pub ssid: heapless::String<32>,
    pub password: heapless::String<64>,
    pub channel: Option<u8>,
}

/// What a settings record says, with its strings as the bytes they hold.
pub ghost struct MyceliumWifiSettingsView {
    pub ssid: Seq<u8>,
    pub password: Seq<u8>,
    pub channel: Option<u8>,
}

impl MyceliumWifiSettingsView {
    /// The name takes at most 32 bytes and the passphrase at most 64.
    pub open spec fn within_limits(self) -> bool {
        self.ssid.len() <= 32 && self.password.len() <= 64
    }
}

impl View for MyceliumWifiSettings {
    type V = MyceliumWifiSettingsView;

    open spec fn view(&self) -> MyceliumWifiSettingsView {
        MyceliumWifiSettingsView {
            ssid: ssid_bytes(self.ssid),
            password: password_bytes(self.password),
            channel: self.channel,
        }
    }
}

/// A joined network: the driver's handle and the channel that was asked for.
pub struct MyceliumWifiEspConnectionResult<R> {
    wifi: R,
    pub channel: Option<u8>,
}

impl<R> MyceliumWifiEspConnectionResult<R> {
    /// The driver's handle.
    pub closed spec fn wifi(self) -> R {
        self.wifi
    }

    /// The channel that the network was joined on, where one was asked for.
    pub closed spec fn spec_channel(&self) -> Option<u8> {
        self.channel
    }

    /// A joined network with the driver's handle and the channel in use.
    pub fn new(wifi: R, channel: Option<u8>) -> (r: Self)
        ensures
            r.wifi() == wifi,
            r.spec_channel() == channel,
    {
        MyceliumWifiEspConnectionResult { wifi, channel }
    }

    /// The channel that the network was joined on, where one was asked for.
    #[verifier::when_used_as_spec(spec_channel)]
    pub fn channel(&self) -> (r: Option<u8>)
        ensures
            r == self.spec_channel(),
    {
        self.channel
    }

    /// Gives the driver's handle back.
    pub fn into_wifi(self) -> (r: R)
        ensures
            r == self.wifi(),
    {
        self.wifi
    }
}

/// A radio that can look for a network and join it.
pub trait MyceliumWifi<R> {
    /// Scans for the network and gives the channel it was seen on.
    fn find_channel(&mut self, ssid: &heapless::String<32>) -> Result<
        Option<u8>,
        MyceliumWifiError,
    >;

    /// Joins the network, on `channel` where one is given, and waits for an
    /// address.
    fn connect(
        &mut self,
        ssid: &heapless::String<32>,
        psk: &heapless::String<64>,
        channel: Option<u8>,
    ) -> Result<MyceliumWifiEspConnectionResult<R>, MyceliumWifiError>;
}

/// One network seen in a scan.
#[derive(Debug, PartialEq)]
pub struct AccessPoint {
    pub ssid: heapless::String<32>,
    pub channel: u8,
}

/// The channel of the first network in a scan whose name is exactly `ssid`.
pub open spec fn scanned_channel(aps: Seq<AccessPoint>, ssid: Seq<u8>) -> Option<u8>
    decreases aps.len(),
{
    if aps.len() == 0 {
        None
    } else if ssid_bytes(aps[0].ssid) == ssid {
        Some(aps[0].channel)
    } else {
        scanned_channel(aps.drop_first(), ssid)
    }
}

/// `ssid` is the name of the network at index `i` of the scan, and of none
/// before it.
pub open spec fn first_named(aps: Seq<AccessPoint>, ssid: Seq<u8>, i: int) -> bool {
    &&& 0 <= i < aps.len()
    &&& ssid_bytes(aps[i].ssid) == ssid
    &&& forall|j: int| 0 <= j < i ==> ssid_bytes(#[trigger] aps[j].ssid) != ssid
}

/// A scan yields no channel exactly when it holds no network named `ssid`,
/// and a channel it yields is that of the first network so named.
pub proof fn lemma_scanned_channel(aps: Seq<AccessPoint>, ssid: Seq<u8>)
    ensures
        scanned_channel(aps, ssid) is None <==> forall|i: int|
            0 <= i < aps.len() ==> ssid_bytes(#[trigger] aps[i].ssid) != ssid,
        scanned_channel(aps, ssid) matches Some(channel) ==> exists|i: int|
            #[trigger] first_named(aps, ssid, i) && aps[i].channel == channel,
    decreases aps.len(),
{
    if aps.len() == 0 {
    } else if ssid_bytes(aps[0].ssid) == ssid {
        assert(first_named(aps, ssid, 0));
    } else {
        let rest = aps.drop_first();
        lemma_scanned_channel(rest, ssid);
        if scanned_channel(rest, ssid) is None {
            assert forall|i: int| 0 <= i < aps.len() implies ssid_bytes(#[trigger] aps[i].ssid)
                != ssid by {
                if i > 0 {
                    assert(aps[i] == rest[i - 1]);
                }
            }
        } else {
            let channel = scanned_channel(rest, ssid)->Some_0;
            let k = choose|i: int|
                #[trigger] first_named(rest, ssid, i) && rest[i].channel == channel;
            assert(rest[k] == aps[k + 1]);
            assert forall|j: int| 0 <= j < k + 1 implies ssid_bytes(#[trigger] aps[j].ssid)
                != ssid by {
                if j > 0 {
                    assert(aps[j] == rest[j - 1]);
                }
            }
            assert(first_named(aps, ssid, k + 1));
        }
    }
}

/// Looks through a scan for a network named exactly `ssid` and gives the
/// channel of the first one; where the scan holds none, it gives no channel.
pub fn matching_channel(aps: &[AccessPoint], ssid: &heapless::String<32>) -> (r: Option<u8>)
    ensures
        r == scanned_channel(aps@, ssid_bytes(*ssid)),
        r is None <==> forall|i: int|
            0 <= i < aps@.len() ==> ssid_bytes(#[trigger] aps@[i].ssid) != ssid_bytes(*ssid),
        r matches Some(channel) ==> exists|i: int|
            #[trigger] first_named(aps@, ssid_bytes(*ssid), i) && aps@[i].channel == channel,
{
    let mut i: usize = 0;
    assert(aps@.skip(0) == aps@);
    while i < aps.len()
        invariant
            i <= aps.len(),
            scanned_channel(aps@, ssid_bytes(*ssid)) == scanned_channel(
                aps@.skip(i as int),
                ssid_bytes(*ssid),
            ),
        decreases aps.len() - i,
    {
        assert(aps@.skip(i as int).drop_first() == aps@.skip(i + 1));
        if ssid_eq(&aps[i].ssid, ssid) {
            proof {
                lemma_scanned_channel(aps@, ssid_bytes(*ssid));
            }
            return Some(aps[i].channel);
        }
        i += 1;
    }
    proof {
        lemma_scanned_channel(aps@, ssid_bytes(*ssid));
    }
    None
}

/// How a station proves itself to the network.
#[derive(Debug, PartialEq, Eq, Structural, Clone, Copy)]
pub enum AuthMode {
    Open,
    Wpa2Personal,
}

/// A network without a passphrase is open; any other is joined with WPA2.
pub open spec fn auth_for(password: Seq<u8>) -> AuthMode {
    if password.len() == 0 {
        AuthMode::Open
    } else {
        AuthMode::Wpa2Personal
    }
}

/// The way to authenticate that goes with a passphrase.
pub fn auth_mode(psk: &heapless::String<64>) -> (r: AuthMode)
    ensures
        r == auth_for(password_bytes(*psk)),
{
    if password_as_str(psk).len() == 0 {
        AuthMode::Open
    } else {
        AuthMode::Wpa2Personal
    }
}

/// A link counts as up once the station is connected and holds an address
/// other than 0.0.0.0.
pub fn address_acquired(connected: bool, ip: [u8; 4]) -> (r: bool)
    ensures
        r == (connected && !(ip[0] == 0 && ip[1] == 0 && ip[2] == 0 && ip[3] == 0)),
{
    connected && !(ip[0] == 0 && ip[1] == 0 && ip[2] == 0 && ip[3] == 0)
}

} // verus!
