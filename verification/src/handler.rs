//! The provisioning engine: what a device reports, how a command changes it,
//! and the handler that takes a frame through association and persistence.

use crate::association::Outcome;
use crate::improv::{
    decoded, result_view, ImprovCommand, ImprovCommandView, ImprovError, ImprovState,
};
use crate::kv::{KvStore, KvStoreError, WIFI_SETTINGS_KEY};
use crate::text::{password_bytes, ssid_bytes};
use crate::wifi::{
    MyceliumWifi, MyceliumWifiError, MyceliumWifiEspConnectionResult, MyceliumWifiSettings,
};
use vstd::prelude::*;

verus! {

/// What a device reports: its state and its last error.
#[derive(Debug, PartialEq, Eq, Structural, Clone, Copy)]
pub struct ImprovStatus {
    pub state: ImprovState,
    pub error: ImprovError,
}

/// What is to be done once a step has been taken.
#[derive(Debug, PartialEq, Eq, Structural, Clone, Copy)]
pub enum ImprovAction {
    /// Nothing: the command is dealt with.
    Idle,
    /// Join the network that the command named.
    Associate,
    /// Write the credentials of the joined network to the store.
    Persist,
    /// Restart the device.
    Restart,
}

/// The error that a device reports for a failed association. A wait that ran
/// out is reported as `UnableToConnect`, whichever of the two waits it was; an
/// error of the driver is reported as `Unknown`.
pub open spec fn reported_error(failure: MyceliumWifiError) -> ImprovError {
    match failure {
        MyceliumWifiError::Esp(_) => ImprovError::Unknown,
        MyceliumWifiError::Timeout => ImprovError::UnableToConnect,
        MyceliumWifiError::NoIp => ImprovError::UnableToConnect,
    }
}

/// The error to report for a failed association.
pub fn improv_error_for(failure: MyceliumWifiError) -> (error: ImprovError)
    ensures
        error == reported_error(failure),
{
    match failure {
        MyceliumWifiError::Esp(_) => ImprovError::Unknown,
        MyceliumWifiError::Timeout => ImprovError::UnableToConnect,
        MyceliumWifiError::NoIp => ImprovError::UnableToConnect,
    }
}

impl ImprovStatus {
    /// What a device reports before it has seen a command.
    pub open spec fn initial() -> ImprovStatus {
        ImprovStatus { state: ImprovState::Authorized, error: ImprovError::NoError }
    }

    /// State and error agree: while provisioning no error is reported, and a
    /// failed association is reported from the authorized state only.
    pub open spec fn consistent(self) -> bool {
        &&& self.state == ImprovState::Provisioning ==> self.error == ImprovError::NoError
        &&& (self.error == ImprovError::UnableToConnect || self.error
            == ImprovError::NotAuthorized) ==> self.state == ImprovState::Authorized
    }

    /// No attempt is in flight, and state and error agree.
    pub open spec fn settled(self) -> bool {
        self.state != ImprovState::Provisioning && self.consistent()
    }

    /// The status after a frame, and what to do next. A settings command
    /// starts an attempt. Any other command changes nothing while the device
    /// is authorized and is refused as `InvalidRpc` while it is not. A frame
    /// that does not decode is reported as `UnknownRpc`, whatever the codec
    /// said of it. The state changes for a settings command only.
    pub open spec fn spec_on_frame(self, frame: Result<ImprovCommandView, ImprovError>) -> (
        ImprovStatus,
        ImprovAction,
    ) {
        match frame {
            Ok(ImprovCommandView::WifiSettings { .. }) => (
                ImprovStatus { state: ImprovState::Provisioning, error: ImprovError::NoError },
                ImprovAction::Associate,
            ),
            Ok(_) => if self.state == ImprovState::Authorized {
                (self, ImprovAction::Idle)
            } else {
                (
                    ImprovStatus { state: self.state, error: ImprovError::InvalidRpc },
                    ImprovAction::Idle,
                )
            },
            Err(_) => (
                ImprovStatus { state: self.state, error: ImprovError::UnknownRpc },
                ImprovAction::Idle,
            ),
        }
    }

    /// The status after an association ended, and what to do next. A joined
    /// network makes the device provisioned, with its credentials still to be
    /// written; a failure takes it back to authorized with the failure's error.
    pub open spec fn spec_on_association(self, outcome: Outcome) -> (ImprovStatus, ImprovAction) {
        match outcome {
            Ok(_) => (
                ImprovStatus { state: ImprovState::Provisioned, error: self.error },
                ImprovAction::Persist,
            ),
            Err(failure) => (
                ImprovStatus { state: ImprovState::Authorized, error: reported_error(failure) },
                ImprovAction::Idle,
            ),
        }
    }

    /// The status after the store answered, and what to do next. Only a write
    /// that the store acknowledged is followed by a restart; a failed write
    /// takes the device back to authorized with the error `Unknown`.
    pub open spec fn spec_on_persistence(self, stored: bool) -> (ImprovStatus, ImprovAction) {
        if stored {
            (self, ImprovAction::Restart)
        } else {
            (
                ImprovStatus { state: ImprovState::Authorized, error: ImprovError::Unknown },
                ImprovAction::Idle,
            )
        }
    }

    /// The status and the last action of one command taken to its end:
    /// `association` and `stored` say how the association and the write
    /// ended, and are looked at only where the command got that far.
    pub open spec fn spec_run(
        self,
        frame: Result<ImprovCommandView, ImprovError>,
        association: Outcome,
        stored: bool,
    ) -> (ImprovStatus, ImprovAction) {
        let (accepted, first) = self.spec_on_frame(frame);
        if first != ImprovAction::Associate {
            (accepted, first)
        } else {
            let (associated, second) = accepted.spec_on_association(association);
            if second != ImprovAction::Persist {
                (associated, second)
            } else {
                associated.spec_on_persistence(stored)
            }
        }
    }

    /// The status after a frame was decoded, and what to do next.
    pub fn on_frame(self, frame: &Result<ImprovCommand, ImprovError>) -> (r: (
        ImprovStatus,
        ImprovAction,
    ))
        ensures
            r == self.spec_on_frame(result_view(*frame)),
    {
        match frame {
            Ok(ImprovCommand::WifiSettings { .. }) => (
                ImprovStatus { state: ImprovState::Provisioning, error: ImprovError::NoError },
                ImprovAction::Associate,
            ),
            Ok(_) => {
                if self.state == ImprovState::Authorized {
                    (self, ImprovAction::Idle)
                } else {
                    (
                        ImprovStatus { state: self.state, error: ImprovError::InvalidRpc },
                        ImprovAction::Idle,
                    )
                }
            },
            Err(_) => (
                ImprovStatus { state: self.state, error: ImprovError::UnknownRpc },
                ImprovAction::Idle,
            ),
        }
    }

    /// The status after an association ended, and what to do next.
    pub fn on_association(self, outcome: Outcome) -> (r: (ImprovStatus, ImprovAction))
        ensures
            r == self.spec_on_association(outcome),
    {
        match outcome {
            Ok(_) => (
                ImprovStatus { state: ImprovState::Provisioned, error: self.error },
                ImprovAction::Persist,
            ),
            Err(failure) => (
                ImprovStatus { state: ImprovState::Authorized, error: improv_error_for(failure) },
                ImprovAction::Idle,
            ),
        }
    }

    /// The status after the store answered, and what to do next.
    pub fn on_persistence(self, stored: bool) -> (r: (ImprovStatus, ImprovAction))
        ensures
            r == self.spec_on_persistence(stored),
    {
        if stored {
            (self, ImprovAction::Restart)
        } else {
            (
                ImprovStatus { state: ImprovState::Authorized, error: ImprovError::Unknown },
                ImprovAction::Idle,
            )
        }
    }

    /// The one byte that the status attribute holds.
    pub fn state_payload(&self) -> (payload: Vec<u8>)
        ensures
            payload@ == seq![self.state.byte()],
    {
        vec![u8::from(self.state)]
    }

    /// The one byte that the error attribute holds.
    pub fn error_payload(&self) -> (payload: Vec<u8>)
        ensures
            payload@ == seq![self.error.byte()],
    {
        vec![u8::from(self.error)]
    }
}

/// A settings command that is followed by a joined network and an
/// acknowledged write takes the device from where it stood, authorized in
/// normal operation, through provisioning to provisioned, and no error is
/// reported at any of the steps. The write is asked for once, after the
/// network was joined, and the restart only after the write.
pub proof fn lemma_successful_provisioning(
    start: ImprovStatus,
    ssid: Seq<u8>,
    password: Seq<u8>,
    channel: Option<u8>,
)
    ensures
        ({
            let (accepted, first) = start.spec_on_frame(
                Ok(ImprovCommandView::WifiSettings { ssid, password }),
            );
            let (associated, second) = accepted.spec_on_association(Ok(channel));
            let (ended, third) = associated.spec_on_persistence(true);
            &&& accepted == (ImprovStatus {
                state: ImprovState::Provisioning,
                error: ImprovError::NoError,
            })
            &&& associated == (ImprovStatus {
                state: ImprovState::Provisioned,
                error: ImprovError::NoError,
            })
            &&& ended == associated
            &&& first == ImprovAction::Associate
            &&& second == ImprovAction::Persist
            &&& third == ImprovAction::Restart
            &&& start.spec_run(
                Ok(ImprovCommandView::WifiSettings { ssid, password }),
                Ok(channel),
                true,
            ) == (ended, ImprovAction::Restart)
        }),
{
}

/// A settings command that is followed by a failed association takes the
/// device back to authorized, with `UnableToConnect` for a wait that ran out
/// and `Unknown` for an error of the driver. No write and no restart is asked
/// for.
pub proof fn lemma_failed_association(
    start: ImprovStatus,
    ssid: Seq<u8>,
    password: Seq<u8>,
    failure: MyceliumWifiError,
    stored: bool,
)
    ensures
        ({
            let (accepted, _) = start.spec_on_frame(
                Ok(ImprovCommandView::WifiSettings { ssid, password }),
            );
            let (ended, action) = accepted.spec_on_association(Err(failure));
            &&& ended.state == ImprovState::Authorized
            &&& ended.error == reported_error(failure)
            &&& ended.error == ImprovError::UnableToConnect || ended.error
                == ImprovError::Unknown
            &&& failure is Esp <==> ended.error == ImprovError::Unknown
            &&& action == ImprovAction::Idle
            &&& start.spec_run(
                Ok(ImprovCommandView::WifiSettings { ssid, password }),
                Err(failure),
                stored,
            ) == (ended, ImprovAction::Idle)
        }),
{
}

/// A restart is asked for by nothing but a write that the store
/// acknowledged: a command ends in a restart exactly when it was a settings
/// command, the network was joined and the write succeeded.
pub proof fn lemma_restart_follows_write(
    start: ImprovStatus,
    frame: Result<ImprovCommandView, ImprovError>,
    association: Outcome,
    stored: bool,
)
    ensures
        start.spec_on_frame(frame).1 != ImprovAction::Restart,
        start.spec_on_association(association).1 != ImprovAction::Restart,
        start.spec_on_persistence(stored).1 == ImprovAction::Restart <==> stored,
        start.spec_run(frame, association, stored).1 == ImprovAction::Restart <==> (frame matches Ok(
            ImprovCommandView::WifiSettings { .. },
        ) && association is Ok && stored),
        start.spec_run(frame, association, stored).1 == ImprovAction::Restart
            || start.spec_run(frame, association, stored).1 == ImprovAction::Idle,
{
}

/// State and error stay in agreement. A command that starts from a settled
/// status passes through consistent statuses only and ends in a settled one,
/// however the association and the write end: the device is never left in
/// provisioning, so the next command starts from a settled status again.
pub proof fn lemma_commands_settle(
    start: ImprovStatus,
    frame: Result<ImprovCommandView, ImprovError>,
    association: Outcome,
    stored: bool,
)
    requires
        start.settled(),
    ensures
        ({
            let (accepted, first) = start.spec_on_frame(frame);
            let (associated, second) = accepted.spec_on_association(association);
            &&& accepted.consistent()
            &&& first != ImprovAction::Associate ==> accepted.settled()
            &&& first == ImprovAction::Associate ==> associated.settled()
            &&& first == ImprovAction::Associate && second == ImprovAction::Persist
                ==> associated.spec_on_persistence(stored).0.settled()
            &&& start.spec_run(frame, association, stored).0.settled()
        }),
{
}

/// A status between two commands: no attempt is in flight.
struct Resting {
    status: ImprovStatus,
}

impl Resting {
    #[verifier::type_invariant]
    spec fn settled(self) -> bool {
        self.status.settled()
    }
}

/// Takes the frames written to the command attribute, one at a time, and
/// holds what the status and error attributes report.
pub struct ImprovHandler<W, N> {
    wifi: W,
    settings: N,
    status: Resting,
}

impl<W, N> ImprovHandler<W, N> {
    /// The radio that the handler joins networks with.
    pub closed spec fn wifi(self) -> W {
        self.wifi
    }

    /// The store that the handler writes credentials to.
    pub closed spec fn settings(self) -> N {
        self.settings
    }

    /// What the device reports.
    pub closed spec fn spec_status(&self) -> ImprovStatus {
        self.status.status
    }

    /// A handler for a device that is authorized and has reported no error.
    pub fn new<R>(esp_wifi: W, settings: N) -> (handler: ImprovHandler<W, N>) where
        W: MyceliumWifi<R>,
        N: KvStore,

        ensures
            handler.wifi() == esp_wifi,
            handler.settings() == settings,
            handler.spec_status() == ImprovStatus::initial(),
    {
        ImprovHandler {
            wifi: esp_wifi,
            settings,
            status: Resting {
                status: ImprovStatus {
                    state: ImprovState::Authorized,
                    error: ImprovError::NoError,
                },
            },
        }
    }

    /// What the device reports. Between two commands it is settled: two
    /// reads without a command between them give the same status.
    #[verifier::when_used_as_spec(spec_status)]
    pub fn status(&self) -> (status: ImprovStatus)
        ensures
            status == self.spec_status(),
            status.settled(),
    {
        proof {
            use_type_invariant(&self.status);
        }
        self.status.status
    }

    /// The state that the status attribute reports.
    pub fn state(&self) -> (state: ImprovState)
        ensures
            state == self.status().state,
    {
        self.status.status.state
    }

    /// The error that the error attribute reports.
    pub fn error(&self) -> (error: ImprovError)
        ensures
            error == self.status().error,
    {
        self.status.status.error
    }

    /// Takes one frame to its end: decodes it, and for a settings command
    /// joins the network, writes the credentials with the channel that was
    /// used under `WIFI_SETTINGS_KEY` and asks for a restart.
    ///
    /// For a settings command the radio is asked once, with the credentials
    /// of the frame and no known channel. Where it joined the network, the
    /// store is asked once, to keep those credentials with the channel that
    /// the radio used, and the restart is asked for only if the store
    /// acknowledged the write; where the radio failed, the store is left
    /// alone. For any other frame neither the radio nor the store is used.
    ///
    /// While a command is handled nobody else can reach the handler, so the
    /// statuses that the command passes through are not seen from outside;
    /// they are those of `ImprovStatus::spec_run`.
    pub fn handle<R>(&mut self, bytes: &Vec<u8>) -> (action: ImprovAction) where
        W: MyceliumWifi<R>,
        N: KvStore,

        ensures
            exists|association: Outcome, stored: bool|
                (final(self).status(), action) == #[trigger] old(self).status().spec_run(
                    decoded(bytes@),
                    association,
                    stored,
                ),
            decoded(bytes@) matches Ok(ImprovCommandView::WifiSettings { .. }) ==> exists|
                radio: &mut W,
                ssid: heapless::String<32>,
                password: heapless::String<64>,
                joined: Result<MyceliumWifiEspConnectionResult<R>, MyceliumWifiError>,
            |
                {
                    &&& decoded(bytes@) == Ok::<ImprovCommandView, ImprovError>(
                        ImprovCommandView::WifiSettings {
                            ssid: ssid_bytes(ssid),
                            password: password_bytes(password),
                        },
                    )
                    &&& *radio == old(self).wifi()
                    &&& *final(radio) == final(self).wifi()
                    &&& #[trigger] call_ensures(
                        W::connect,
                        (radio, &ssid, &password, None::<u8>),
                        joined,
                    )
                    &&& match joined {
                        Ok(connection) => exists|store: &mut N, answer: Result<(), KvStoreError>|
                            {
                                &&& *store == old(self).settings()
                                &&& *final(store) == final(self).settings()
                                &&& #[trigger] call_ensures(
                                    N::set,
                                    (
                                        store,
                                        WIFI_SETTINGS_KEY,
                                        MyceliumWifiSettings {
                                            ssid,
                                            password,
                                            channel: connection.channel(),
                                        },
                                    ),
                                    answer,
                                )
                                &&& (final(self).status(), action) == old(self).status().spec_run(
                                    decoded(bytes@),
                                    Ok(connection.channel()),
                                    answer is Ok,
                                )
                            },
                        Err(failure) => {
                            &&& final(self).settings() == old(self).settings()
                            &&& (final(self).status(), action) == old(self).status().spec_run(
                                decoded(bytes@),
                                Err(failure),
                                false,
                            )
                        },
                    }
                },
            !(decoded(bytes@) matches Ok(ImprovCommandView::WifiSettings { .. })) ==> {
                &&& final(self).wifi() == old(self).wifi()
                &&& final(self).settings() == old(self).settings()
                &&& (final(self).status(), action) == old(self).status().spec_on_frame(
                    decoded(bytes@),
                )
            },
            action == ImprovAction::Idle || action == ImprovAction::Restart,
    {
        proof {
            use_type_invariant(&self.status);
        }
        let frame = ImprovCommand::from_bytes(bytes.as_slice());
        let (accepted, _) = self.status.status.on_frame(&frame);
        match frame {
            Ok(ImprovCommand::WifiSettings { ssid, password }) => {
                match self.wifi.connect(&ssid, &password, None) {
                    Ok(connection) => {
                        let channel = connection.channel();
                        let (associated, _) = accepted.on_association(Ok(channel));
                        let record = MyceliumWifiSettings { ssid, password, channel };
                        let answer = self.settings.set(WIFI_SETTINGS_KEY, record);
                        let (ended, action) = associated.on_persistence(answer.is_ok());
                        self.status = Resting { status: ended };
                        assert((ended, action) == old(self).status().spec_run(
                            decoded(bytes@),
                            Ok(channel),
                            answer is Ok,
                        ));
                        action
                    },
                    Err(failure) => {
                        let (associated, _) = accepted.on_association(Err(failure));
                        self.status = Resting { status: associated };
                        assert((associated, ImprovAction::Idle) == old(self).status().spec_run(
                            decoded(bytes@),
                            Err(failure),
                            false,
                        ));
                        ImprovAction::Idle
                    },
                }
            },
            _ => {
                self.status = Resting { status: accepted };
                assert((accepted, ImprovAction::Idle) == old(self).status().spec_run(
                    decoded(bytes@),
                    Ok(None),
                    false,
                ));
                ImprovAction::Idle
            },
        }
    }
}

} // verus!
