//! The Improv wire protocol: state and error bytes, and the command codec.

use crate::text::{password_bytes, password_from_str, ssid_bytes, ssid_from_str};
use vstd::prelude::*;
use vstd::utf8::valid_utf8;

verus! {

/// The error a device reports through its error attribute.
#[derive(Debug, PartialEq, Eq, Structural, Copy, Clone)]
pub enum ImprovError {
    /// Nothing went wrong.
    NoError,
    /// The frame was malformed, or the command does not fit the state.
    InvalidRpc,
    /// The frame names no known command.
    UnknownRpc,
    /// The network could not be joined.
    UnableToConnect,
    /// The device is not authorized.
    NotAuthorized,
    /// Anything else.
    Unknown,
}

impl ImprovError {
    /// The byte that stands for this error on the wire.
    pub open spec fn byte(self) -> u8 {
        match self {
            ImprovError::NoError => 0x00,
            ImprovError::InvalidRpc => 0x01,
            ImprovError::UnknownRpc => 0x02,
            ImprovError::UnableToConnect => 0x03,
            ImprovError::NotAuthorized => 0x04,
            ImprovError::Unknown => 0xff,
        }
    }
}

impl From<ImprovError> for u8 {
    fn from(value: ImprovError) -> (byte: u8) {
        match value {
            ImprovError::NoError => 0x00,
            ImprovError::InvalidRpc => 0x01,
            ImprovError::UnknownRpc => 0x02,
            ImprovError::UnableToConnect => 0x03,
            ImprovError::NotAuthorized => 0x04,
            ImprovError::Unknown => 0xff,
        }
    }
}

impl vstd::std_specs::convert::FromSpecImpl<ImprovError> for u8 {
    open spec fn obeys_from_spec() -> bool {
        true
    }

    open spec fn from_spec(value: ImprovError) -> u8 {
        value.byte()
    }
}

/// The provisioning state a device reports through its status attribute.
#[derive(Debug, PartialEq, Eq, Structural, Copy, Clone)]
pub enum ImprovState {
    /// Provisioning is switched off.
    Stopped,
    /// The device waits to be authorized.
    AwaitingAuthorization,
    /// The device takes commands.
    Authorized,
    /// The device is joining the network it was given.
    Provisioning,
    /// The device has joined the network and kept its credentials.
    Provisioned,
}

impl ImprovState {
    /// The byte that stands for this state on the wire.
    pub open spec fn byte(self) -> u8 {
        match self {
            ImprovState::Stopped => 0x00,
            ImprovState::AwaitingAuthorization => 0x01,
            ImprovState::Authorized => 0x02,
            ImprovState::Provisioning => 0x03,
            ImprovState::Provisioned => 0x04,
        }
    }
}

impl From<ImprovState> for u8 {
    fn from(value: ImprovState) -> (byte: u8) {
        match value {
            ImprovState::Stopped => 0x00,
            ImprovState::AwaitingAuthorization => 0x01,
            ImprovState::Authorized => 0x02,
            ImprovState::Provisioning => 0x03,
            ImprovState::Provisioned => 0x04,
        }
    }
}

impl vstd::std_specs::convert::FromSpecImpl<ImprovState> for u8 {
    open spec fn obeys_from_spec() -> bool {
        true
    }

    open spec fn from_spec(value: ImprovState) -> u8 {
        value.byte()
    }
}

/// The identifier of the provisioning service.
pub const IMPROV_SERVICE_UUID: &'static str = "00467768-6228-2272-4663-277478268000";

/// The identifier of the status attribute.
pub const IMPROV_STATUS_UUID: &'static str = "00467768-6228-2272-4663-277478268001";

/// The identifier of the error attribute.
pub const IMPROV_ERROR_UUID: &'static str = "00467768-6228-2272-4663-277478268002";

/// The identifier of the command attribute.
pub const IMPROV_RPC_COMMAND_UUID: &'static str = "00467768-6228-2272-4663-277478268003";

/// The identifier of the result attribute.
pub const IMPROV_RPC_RESULT_UUID: &'static str = "00467768-6228-2272-4663-277478268004";

/// The identifier of the capabilities attribute.
pub const IMPROV_CAPABILITIES_UUID: &'static str = "00467768-6228-2272-4663-277478268005";

/// The capabilities bit field: no optional capability is advertised.
pub const IMPROV_CAPABILITIES: u8 = 0x00;

/// The attributes that the provisioning service exposes.
#[derive(Debug, PartialEq, Eq, Structural, Copy, Clone)]
pub enum ImprovAttribute {
    CurrentState,
    ErrorState,
    RpcCommand,
    RpcResult,
    Capabilities,
}

/// What a peer may do with an attribute.
#[derive(Debug, PartialEq, Eq, Structural, Copy, Clone)]
pub struct AttributeAccess {
    pub read: bool,
    pub write: bool,
    pub notify: bool,
}

impl ImprovAttribute {
    /// The command attribute is written and nothing else; every other
    /// attribute is read, and all of those but the capabilities notify.
    pub open spec fn spec_access(self) -> AttributeAccess {
        AttributeAccess {
            read: self != ImprovAttribute::RpcCommand,
            write: self == ImprovAttribute::RpcCommand,
            notify: self != ImprovAttribute::RpcCommand && self != ImprovAttribute::Capabilities,
        }
    }

    /// The identifier under which the attribute is exposed.
    pub open spec fn spec_uuid(self) -> &'static str {
        match self {
            ImprovAttribute::CurrentState => IMPROV_STATUS_UUID,
            ImprovAttribute::ErrorState => IMPROV_ERROR_UUID,
            ImprovAttribute::RpcCommand => IMPROV_RPC_COMMAND_UUID,
            ImprovAttribute::RpcResult => IMPROV_RPC_RESULT_UUID,
            ImprovAttribute::Capabilities => IMPROV_CAPABILITIES_UUID,
        }
    }

    #[verifier::when_used_as_spec(spec_access)]
    pub fn access(self) -> (access: AttributeAccess)
        ensures
            access == self.spec_access(),
    {
        match self {
            ImprovAttribute::CurrentState | ImprovAttribute::ErrorState
            | ImprovAttribute::RpcResult => AttributeAccess {
                read: true,
                write: false,
                notify: true,
            },
            ImprovAttribute::RpcCommand => AttributeAccess {
                read: false,
                write: true,
                notify: false,
            },
            ImprovAttribute::Capabilities => AttributeAccess {
                read: true,
                write: false,
                notify: false,
            },
        }
    }

    #[verifier::when_used_as_spec(spec_uuid)]
    pub fn uuid(self) -> (uuid: &'static str)
        ensures
            uuid == self.spec_uuid(),
    {
        match self {
            ImprovAttribute::CurrentState => IMPROV_STATUS_UUID,
            ImprovAttribute::ErrorState => IMPROV_ERROR_UUID,
            ImprovAttribute::RpcCommand => IMPROV_RPC_COMMAND_UUID,
            ImprovAttribute::RpcResult => IMPROV_RPC_RESULT_UUID,
            ImprovAttribute::Capabilities => IMPROV_CAPABILITIES_UUID,
        }
    }
}

/// The command named by the first byte of a frame.
#[derive(Debug, PartialEq, Eq, Structural, Copy, Clone)]
pub enum ImprovCommandIdentifier {
    WifiSettings,
    GetCurrentState,
    GetDeviceInfo,
    GetWifiNetworks,
}

impl ImprovCommandIdentifier {
    /// The command that a leading byte names, if it names one.
    pub open spec fn of_byte(value: u8) -> Option<ImprovCommandIdentifier> {
        if value == 0x01 {
            Some(ImprovCommandIdentifier::WifiSettings)
        } else if value == 0x02 {
            Some(ImprovCommandIdentifier::GetCurrentState)
        } else if value == 0x03 {
            Some(ImprovCommandIdentifier::GetDeviceInfo)
        } else if value == 0x04 {
            Some(ImprovCommandIdentifier::GetWifiNetworks)
        } else {
            None
        }
    }
}

impl TryFrom<u8> for ImprovCommandIdentifier {
    type Error = ImprovError;

    fn try_from(value: u8) -> (r: Result<Self, Self::Error>) {
        match value {
            0x01 => Ok(ImprovCommandIdentifier::WifiSettings),
            0x02 => Ok(ImprovCommandIdentifier::GetCurrentState),
            0x03 => Ok(ImprovCommandIdentifier::GetDeviceInfo),
            0x04 => Ok(ImprovCommandIdentifier::GetWifiNetworks),
            _ => Err(ImprovError::UnknownRpc),
        }
    }
}

impl vstd::std_specs::convert::TryFromSpecImpl<u8> for ImprovCommandIdentifier {
    open spec fn obeys_try_from_spec() -> bool {
        true
    }

    open spec fn try_from_spec(value: u8) -> Result<Self, Self::Error> {
        match ImprovCommandIdentifier::of_byte(value) {
            Some(id) => Ok(id),
            None => Err(ImprovError::UnknownRpc),
        }
    }
}

/// A decoded command.
#[derive(Debug, PartialEq)]
pub enum ImprovCommand {
    /// Join this network and keep its credentials.
    WifiSettings { ssid: heapless::String<32>, password: heapless::String<64> },
    /// Report the current state.
    GetCurrentState,
    /// Report what the device is.
    GetDeviceInfo,
    /// Report the networks in reach.
    GetWifiNetworks,
}

/// What a command says, with its strings as the bytes they hold.
pub ghost enum ImprovCommandView {
    WifiSettings { ssid: Seq<u8>, password: Seq<u8> },
    GetCurrentState,
    GetDeviceInfo,
    GetWifiNetworks,
}

impl View for ImprovCommand {
    type V = ImprovCommandView;

    open spec fn view(&self) -> ImprovCommandView {
        match *self {
            ImprovCommand::WifiSettings { ssid, password } => ImprovCommandView::WifiSettings {
                ssid: ssid_bytes(ssid),
                password: password_bytes(password),
            },
            ImprovCommand::GetCurrentState => ImprovCommandView::GetCurrentState,
            ImprovCommand::GetDeviceInfo => ImprovCommandView::GetDeviceInfo,
            ImprovCommand::GetWifiNetworks => ImprovCommandView::GetWifiNetworks,
        }
    }
}

/// The offset of the network name in a settings frame.
pub const SSID_START: usize = 3;

/// The most bytes a network name may hold.
pub const SSID_CAPACITY: usize = 32;

/// The most bytes a passphrase may hold.
pub const PASSWORD_CAPACITY: usize = 64;

/// The offset just past the network name: where the length of the passphrase
/// stands.
pub open spec fn ssid_end(data: Seq<u8>) -> int {
    SSID_START + data[2]
}

/// The offset just past the passphrase.
pub open spec fn password_end(data: Seq<u8>) -> int {
    ssid_end(data) + 1 + data[ssid_end(data)]
}

/// The bytes of the network name in a settings frame.
pub open spec fn frame_ssid(data: Seq<u8>) -> Seq<u8> {
    data.subrange(SSID_START as int, ssid_end(data))
}

/// The bytes of the passphrase in a settings frame.
pub open spec fn frame_password(data: Seq<u8>) -> Seq<u8> {
    data.subrange(ssid_end(data) + 1, password_end(data))
}

/// A settings frame is cut short when one of its two declared lengths, or
/// the string that the length announces, lies past the end of the buffer.
pub open spec fn cut_short(data: Seq<u8>) -> bool {
    ||| data.len() < SSID_START
    ||| ssid_end(data) >= data.len()
    ||| password_end(data) > data.len()
}

/// A settings frame is well formed when both length-prefixed strings lie
/// inside the buffer, fit their capacities and are valid UTF-8. The byte at
/// offset 1 is not looked at, and neither is what follows the passphrase.
pub open spec fn settings_frame_ok(data: Seq<u8>) -> bool {
    &&& !cut_short(data)
    &&& data[2] <= SSID_CAPACITY
    &&& data[ssid_end(data)] <= PASSWORD_CAPACITY
    &&& valid_utf8(frame_ssid(data))
    &&& valid_utf8(frame_password(data))
}

/// What a frame decodes to.
pub open spec fn decoded(data: Seq<u8>) -> Result<ImprovCommandView, ImprovError> {
    if data.len() == 0 {
        Err(ImprovError::InvalidRpc)
    } else {
        match ImprovCommandIdentifier::of_byte(data[0]) {
            None => Err(ImprovError::UnknownRpc),
            Some(ImprovCommandIdentifier::WifiSettings) => if settings_frame_ok(data) {
                Ok(
                    ImprovCommandView::WifiSettings {
                        ssid: frame_ssid(data),
                        password: frame_password(data),
                    },
                )
            } else {
                Err(ImprovError::InvalidRpc)
            },
            Some(ImprovCommandIdentifier::GetCurrentState) => Ok(
                ImprovCommandView::GetCurrentState,
            ),
            Some(ImprovCommandIdentifier::GetDeviceInfo) => Ok(ImprovCommandView::GetDeviceInfo),
            Some(ImprovCommandIdentifier::GetWifiNetworks) => Ok(
                ImprovCommandView::GetWifiNetworks,
            ),
        }
    }
}

/// What `from_bytes` hands back, with the command taken by its view.
pub open spec fn result_view(r: Result<ImprovCommand, ImprovError>) -> Result<
    ImprovCommandView,
    ImprovError,
> {
    match r {
        Ok(command) => Ok(command@),
        Err(error) => Err(error),
    }
}

impl ImprovCommand {
    /// Decodes one frame. An empty frame and a malformed settings frame give
    /// `InvalidRpc`. A leading byte that names no command gives `UnknownRpc`,
    /// whatever follows it. A settings frame whose declared lengths reach past
    /// the end of the buffer is refused, and nothing past the end is read.
    pub fn from_bytes(data: &[u8]) -> (r: Result<ImprovCommand, ImprovError>)
        ensures
            result_view(r) == decoded(data@),
            data@.len() > 0 && ImprovCommandIdentifier::of_byte(data@[0]) is None ==> r == Err::<
                ImprovCommand,
                ImprovError,
            >(ImprovError::UnknownRpc),
            data@.len() > 0 && data@[0] == 0x01 && cut_short(data@) ==> r == Err::<
                ImprovCommand,
                ImprovError,
            >(ImprovError::InvalidRpc),
    {
        if data.len() == 0 {
            return Err(ImprovError::InvalidRpc);
        }
        let cmd = ImprovCommandIdentifier::try_from(data[0])?;

        match cmd {
            ImprovCommandIdentifier::WifiSettings => {
                if data.len() < SSID_START {
                    return Err(ImprovError::InvalidRpc);
                }
                let ssid_length: usize = data[2] as usize;
                let ssid_end: usize = SSID_START + ssid_length;
                if ssid_end >= data.len() {
                    return Err(ImprovError::InvalidRpc);
                }
                let pass_length: usize = data[ssid_end] as usize;
                let pass_start: usize = ssid_end + 1;
                let pass_end: usize = pass_start + pass_length;
                if pass_end > data.len() {
                    return Err(ImprovError::InvalidRpc);
                }
                if ssid_length > SSID_CAPACITY || pass_length > PASSWORD_CAPACITY {
                    return Err(ImprovError::InvalidRpc);
                }
                let ssid = match core::str::from_utf8(&data[SSID_START..ssid_end]) {
                    Ok(s) => ssid_from_str(s),
                    Err(_) => { return Err(ImprovError::InvalidRpc); },
                };
                let password = match core::str::from_utf8(&data[pass_start..pass_end]) {
                    Ok(s) => password_from_str(s),
                    Err(_) => { return Err(ImprovError::InvalidRpc); },
                };

                Ok(ImprovCommand::WifiSettings { ssid, password })
            },
            ImprovCommandIdentifier::GetDeviceInfo => Ok(ImprovCommand::GetDeviceInfo),
            ImprovCommandIdentifier::GetCurrentState => Ok(ImprovCommand::GetCurrentState),
            ImprovCommandIdentifier::GetWifiNetworks => Ok(ImprovCommand::GetWifiNetworks),
        }
    }
}

} // verus!
