//! The association workflow as a state machine: the caller performs each
//! command against the radio driver and reports back what happened.

use crate::text::password_bytes;
use crate::wifi::{auth_for, auth_mode, AuthMode, MyceliumWifiError};
use vstd::prelude::*;

verus! {

/// Seconds the radio is given to report that it started.
pub const START_TIMEOUT_SECS: u64 = 20;

/// Seconds the link is given to come up with an address.
pub const ADDRESS_TIMEOUT_SECS: u64 = 10;

/// How an association ended: the channel that was asked for, or the failure.
pub type Outcome = Result<Option<u8>, MyceliumWifiError>;

/// Where an association stands: each stage but the last waits for the report
/// on one command.
#[derive(Debug, PartialEq, Eq, Clone, Copy)]
pub enum Stage {
    FindingChannel,
    Configuring,
    Starting,
    AwaitingStart,
    Connecting,
    AwaitingAddress,
    Finished(Outcome),
}

/// The station configuration to apply to the radio.
#[derive(Debug, PartialEq)]
pub struct ClientSettings<'a> {
    pub ssid: &'a heapless::String<32>,
    pub password: &'a heapless::String<64>,
    pub channel: Option<u8>,
    pub auth: AuthMode,
}

/// What the caller is to do next.
#[derive(Debug, PartialEq)]
pub enum DriverCommand<'a> {
    /// Scan, and look for the channel of the named network.
    FindChannel(&'a heapless::String<32>),
    /// Apply the station configuration.
    Configure(ClientSettings<'a>),
    /// Start the radio.
    Start,
    /// Wait until the radio reports that it started, for so many seconds at most.
    AwaitStarted { timeout_secs: u64 },
    /// Ask the radio to associate.
    Connect,
    /// Wait until the link is up with an address, for so many seconds at most.
    AwaitAddress { timeout_secs: u64 },
    /// Nothing is left to do: the association ended like this.
    Finish(Outcome),
}

/// What the caller saw when it performed a command.
#[derive(Debug, PartialEq, Eq, Clone, Copy)]
pub enum DriverReport {
    /// The scan ended; it held the network on this channel, or did not hold it.
    ChannelFound(Option<u8>),
    /// The driver carried the command out.
    Done,
    /// The wait ended: the condition was met in time, or the time ran out.
    Waited(bool),
    /// The driver reported an error with this code.
    Failed(i32),
}

/// One attempt to join a network.
#[derive(Debug, PartialEq)]
pub struct Association<'a> {
    pub ssid: &'a heapless::String<32>,
    pub password: &'a heapless::String<64>,
    /// The channel to ask for: the one that was known, or the one the scan
    /// found.
    pub channel: Option<u8>,
    pub stage: Stage,
}

impl<'a> Association<'a> {
    /// The same attempt at another stage.
    pub open spec fn at(self, stage: Stage) -> Association<'a> {
        Association { ssid: self.ssid, password: self.password, channel: self.channel, stage }
    }

    /// The command that the attempt waits on.
    pub open spec fn spec_pending(&self) -> DriverCommand<'a> {
        match self.stage {
            Stage::FindingChannel => DriverCommand::FindChannel(self.ssid),
            Stage::Configuring => DriverCommand::Configure(
                ClientSettings {
                    ssid: self.ssid,
                    password: self.password,
                    channel: self.channel,
                    auth: auth_for(password_bytes(*self.password)),
                },
            ),
            Stage::Starting => DriverCommand::Start,
            Stage::AwaitingStart => DriverCommand::AwaitStarted {
                timeout_secs: START_TIMEOUT_SECS,
            },
            Stage::Connecting => DriverCommand::Connect,
            Stage::AwaitingAddress => DriverCommand::AwaitAddress {
                timeout_secs: ADDRESS_TIMEOUT_SECS,
            },
            Stage::Finished(outcome) => DriverCommand::Finish(outcome),
        }
    }

    /// The attempt after a report. An error of the driver ends it at any
    /// stage; a wait that ran out ends it with the failure of that wait; a
    /// report that does not answer the pending command changes nothing.
    pub open spec fn spec_advance(self, report: DriverReport) -> Association<'a> {
        match (self.stage, report) {
            (Stage::Finished(_), _) => self,
            (_, DriverReport::Failed(code)) => self.at(
                Stage::Finished(Err(MyceliumWifiError::Esp(code))),
            ),
            (Stage::FindingChannel, DriverReport::ChannelFound(channel)) => Association {
                ssid: self.ssid,
                password: self.password,
                channel,
                stage: Stage::Configuring,
            },
            (Stage::Configuring, DriverReport::Done) => self.at(Stage::Starting),
            (Stage::Starting, DriverReport::Done) => self.at(Stage::AwaitingStart),
            (Stage::AwaitingStart, DriverReport::Waited(started)) => self.at(
                if started {
                    Stage::Connecting
                } else {
                    Stage::Finished(Err(MyceliumWifiError::Timeout))
                },
            ),
            (Stage::Connecting, DriverReport::Done) => self.at(Stage::AwaitingAddress),
            (Stage::AwaitingAddress, DriverReport::Waited(acquired)) => self.at(
                if acquired {
                    Stage::Finished(Ok(self.channel))
                } else {
                    Stage::Finished(Err(MyceliumWifiError::NoIp))
                },
            ),
            _ => self,
        }
    }

    /// Starts an attempt. With a known channel the scan is skipped.
    pub fn begin(
        ssid: &'a heapless::String<32>,
        password: &'a heapless::String<64>,
        channel: Option<u8>,
    ) -> (r: Association<'a>)
        ensures
            r == (Association {
                ssid,
                password,
                channel,
                stage: if channel is None {
                    Stage::FindingChannel
                } else {
                    Stage::Configuring
                },
            }),
    {
        let stage = match channel {
            None => Stage::FindingChannel,
            Some(_) => Stage::Configuring,
        };
        Association { ssid, password, channel, stage }
    }

    /// The command to perform now.
    pub fn pending(&self) -> (command: DriverCommand<'a>)
        ensures
            command == self.spec_pending(),
    {
        match self.stage {
            Stage::FindingChannel => DriverCommand::FindChannel(self.ssid),
            Stage::Configuring => DriverCommand::Configure(
                ClientSettings {
                    ssid: self.ssid,
                    password: self.password,
                    channel: self.channel,
                    auth: auth_mode(self.password),
                },
            ),
            Stage::Starting => DriverCommand::Start,
            Stage::AwaitingStart => DriverCommand::AwaitStarted {
                timeout_secs: START_TIMEOUT_SECS,
            },
            Stage::Connecting => DriverCommand::Connect,
            Stage::AwaitingAddress => DriverCommand::AwaitAddress {
                timeout_secs: ADDRESS_TIMEOUT_SECS,
            },
            Stage::Finished(outcome) => DriverCommand::Finish(outcome),
        }
    }

    /// Takes the report on the pending command and gives the next command.
    pub fn advance(&mut self, report: DriverReport) -> (next: DriverCommand<'a>)
        ensures
            *final(self) == old(self).spec_advance(report),
            next == final(self).spec_pending(),
    {
        if let Stage::Finished(_) = self.stage {
            return self.pending();
        }
        match report {
            DriverReport::Failed(code) => {
                self.stage = Stage::Finished(Err(MyceliumWifiError::Esp(code)));
            },
            DriverReport::ChannelFound(channel) => {
                if let Stage::FindingChannel = self.stage {
                    self.channel = channel;
                    self.stage = Stage::Configuring;
                }
            },
            DriverReport::Done => {
                match self.stage {
                    Stage::Configuring => {
                        self.stage = Stage::Starting;
                    },
                    Stage::Starting => {
                        self.stage = Stage::AwaitingStart;
                    },
                    Stage::Connecting => {
                        self.stage = Stage::AwaitingAddress;
                    },
                    _ => {},
                }
            },
            DriverReport::Waited(met) => {
                match self.stage {
                    Stage::AwaitingStart => {
                        self.stage = if met {
                            Stage::Connecting
                        } else {
                            Stage::Finished(Err(MyceliumWifiError::Timeout))
                        };
                    },
                    Stage::AwaitingAddress => {
                        self.stage = if met {
                            Stage::Finished(Ok(self.channel))
                        } else {
                            Stage::Finished(Err(MyceliumWifiError::NoIp))
                        };
                    },
                    _ => {},
                }
            },
        }
        self.pending()
    }

    /// The outcome, once the attempt has ended.
    pub fn outcome(&self) -> (r: Option<Outcome>)
        ensures
            r == (match self.stage {
                Stage::Finished(outcome) => Some(outcome),
                _ => None,
            }),
    {
        match self.stage {
            Stage::Finished(outcome) => Some(outcome),
            _ => None,
        }
    }
}

/// An error of the driver ends an attempt at whatever stage it stands, with
/// the driver's code; an attempt that has ended is not changed by any report.
pub proof fn lemma_driver_error_ends_attempt(attempt: Association, code: i32, report: DriverReport)
    ensures
        !(attempt.stage is Finished) ==> attempt.spec_advance(DriverReport::Failed(code)).stage
            == Stage::Finished(Err(MyceliumWifiError::Esp(code))),
        attempt.stage is Finished ==> attempt.spec_advance(report) == attempt,
{
}

/// An attempt that meets no failure is over after the channel is settled and
/// five more reports, and ends with the channel that was known or, where none
/// was known, the one that the scan found. With the first wait not met it
/// ends in `Timeout`, with the second not met in `NoIp`.
pub proof fn lemma_association_path(
    ssid: &heapless::String<32>,
    password: &heapless::String<64>,
    known: Option<u8>,
    found: Option<u8>,
)
    ensures
        ({
            let begun = Association {
                ssid,
                password,
                channel: known,
                stage: if known is None {
                    Stage::FindingChannel
                } else {
                    Stage::Configuring
                },
            };
            let settled = if known is None {
                begun.spec_advance(DriverReport::ChannelFound(found))
            } else {
                begun
            };
            let started = settled.spec_advance(DriverReport::Done).spec_advance(
                DriverReport::Done,
            );
            let connecting = started.spec_advance(DriverReport::Waited(true));
            let waiting = connecting.spec_advance(DriverReport::Done);
            let channel = if known is None {
                found
            } else {
                known
            };
            &&& settled.stage == Stage::Configuring
            &&& settled.channel == channel
            &&& started.stage == Stage::AwaitingStart
            &&& started.spec_advance(DriverReport::Waited(false)).stage == Stage::Finished(
                Err(MyceliumWifiError::Timeout),
            )
            &&& waiting.stage == Stage::AwaitingAddress
            &&& waiting.spec_advance(DriverReport::Waited(false)).stage == Stage::Finished(
                Err(MyceliumWifiError::NoIp),
            )
            &&& waiting.spec_advance(DriverReport::Waited(true)).stage == Stage::Finished(
                Ok(channel),
            )
        }),
{
}

} // verus!
