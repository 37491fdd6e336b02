use heapless::String;
use mycelium_improv::association::Outcome;
use mycelium_improv::handler::{improv_error_for, ImprovAction, ImprovHandler, ImprovStatus};
use mycelium_improv::improv::{ImprovCommand, ImprovError, ImprovState};
use mycelium_improv::kv::{KvStore, KvStoreError};
use mycelium_improv::wifi::{
    MyceliumWifi, MyceliumWifiError, MyceliumWifiEspConnectionResult, MyceliumWifiSettings,
};
use std::cell::RefCell;
use std::rc::Rc;
use std::sync::{Arc, Mutex, RwLock};

/// What the fakes were asked to do, in order.
type Journal = Rc<RefCell<Vec<std::string::String>>>;

struct FakeWifi {
    outcome: Outcome,
    journal: Journal,
}

impl MyceliumWifi<()> for FakeWifi {
    fn find_channel(&mut self, ssid: &String<32>) -> Result<Option<u8>, MyceliumWifiError> {
        self.journal.borrow_mut().push(format!("find_channel {}", ssid.as_str()));
        self.outcome
    }

    fn connect(
        &mut self,
        ssid: &String<32>,
        psk: &String<64>,
        channel: Option<u8>,
    ) -> Result<MyceliumWifiEspConnectionResult<()>, MyceliumWifiError> {
        self.journal.borrow_mut().push(format!(
            "connect {} {} {:?}",
            ssid.as_str(),
            psk.as_str(),
            channel
        ));
        self.outcome.map(|used| MyceliumWifiEspConnectionResult::new((), used))
    }
}

struct FakeStore {
    fails: bool,
    entries: Vec<(std::string::String, MyceliumWifiSettings)>,
    journal: Journal,
}

impl KvStore for FakeStore {
    fn get(&self, key: &str) -> Result<Option<MyceliumWifiSettings>, KvStoreError> {
        Ok(self.entries.iter().rev().find(|(k, _)| k == key).map(|(_, v)| MyceliumWifiSettings {
            ssid: v.ssid.clone(),
            password: v.password.clone(),
            channel: v.channel,
        }))
    }

    fn set(&mut self, key: &str, value: MyceliumWifiSettings) -> Result<(), KvStoreError> {
        self.journal.borrow_mut().push(format!(
            "set {} {} {} {:?}",
            key,
            value.ssid.as_str(),
            value.password.as_str(),
            value.channel
        ));
        if self.fails {
            return Err(KvStoreError::Esp(0x1105));
        }
        self.entries.retain(|(k, _)| k != key);
        self.entries.push((key.to_string(), value));
        Ok(())
    }

    fn contains(&self, key: &str) -> Result<bool, KvStoreError> {
        Ok(self.entries.iter().any(|(k, _)| k == key))
    }
}

fn handler(outcome: Outcome, store_fails: bool) -> (ImprovHandler<FakeWifi, FakeStore>, Journal) {
    let journal: Journal = Rc::new(RefCell::new(Vec::new()));
    let wifi = FakeWifi { outcome, journal: journal.clone() };
    let store = FakeStore { fails: store_fails, entries: Vec::new(), journal: journal.clone() };
    (ImprovHandler::new(wifi, store), journal)
}

fn settings_frame() -> Vec<u8> {
    vec![
        0x01, 0x1e, 0x0c, 0x4d, 0x79, 0x57, 0x69, 0x72, 0x65, 0x6c, 0x65, 0x73, 0x73, 0x41, 0x50,
        0x10, 0x6d, 0x79, 0x73, 0x65, 0x63, 0x75, 0x72, 0x65, 0x70, 0x61, 0x73, 0x73, 0x77, 0x6f,
        0x72, 0x64,
    ]
}

fn status(state: ImprovState, error: ImprovError) -> ImprovStatus {
    ImprovStatus { state, error }
}

#[test]
fn device_starts_authorized_without_error() {
    let (handler, journal) = handler(Ok(None), false);
    assert_eq!(handler.state(), ImprovState::Authorized);
    assert_eq!(handler.error(), ImprovError::NoError);
    assert_eq!(handler.status(), status(ImprovState::Authorized, ImprovError::NoError));
    assert!(journal.borrow().is_empty());
}

#[test]
fn joined_network_is_persisted_once_and_then_restarted() {
    let (mut handler, journal) = handler(Ok(Some(6)), false);
    let action = handler.handle::<()>(&settings_frame());
    assert_eq!(action, ImprovAction::Restart);
    assert_eq!(handler.state(), ImprovState::Provisioned);
    assert_eq!(handler.error(), ImprovError::NoError);
    assert_eq!(
        *journal.borrow(),
        vec![
            "connect MyWirelessAP mysecurepassword None".to_string(),
            "set wifi_settings MyWirelessAP mysecurepassword Some(6)".to_string()
        ]
    );
}

#[test]
fn failed_association_returns_to_authorized_without_a_write() {
    let cases = [
        (MyceliumWifiError::Timeout, ImprovError::UnableToConnect),
        (MyceliumWifiError::NoIp, ImprovError::UnableToConnect),
        (MyceliumWifiError::Esp(0x3007), ImprovError::Unknown),
        (MyceliumWifiError::Esp(-1), ImprovError::Unknown),
    ];
    for (failure, reported) in cases {
        let (mut handler, journal) = handler(Err(failure), false);
        let action = handler.handle::<()>(&settings_frame());
        assert_eq!(action, ImprovAction::Idle);
        assert_eq!(handler.state(), ImprovState::Authorized);
        assert_eq!(handler.error(), reported);
        assert_eq!(
            *journal.borrow(),
            vec!["connect MyWirelessAP mysecurepassword None".to_string()]
        );
    }
}

#[test]
fn failed_write_is_no_restart() {
    let (mut handler, journal) = handler(Ok(Some(6)), true);
    let action = handler.handle::<()>(&settings_frame());
    assert_eq!(action, ImprovAction::Idle);
    assert_eq!(handler.state(), ImprovState::Authorized);
    assert_eq!(handler.error(), ImprovError::Unknown);
    assert_eq!(journal.borrow().len(), 2);
}

#[test]
fn frame_that_does_not_decode_is_unknown_rpc() {
    for frame in [vec![], vec![0x09], vec![0x01, 0x1e, 0x0c, 0x4d], vec![0x01, 0x03, 1, 0xff, 0]] {
        let (mut handler, journal) = handler(Ok(None), false);
        assert!(ImprovCommand::from_bytes(&frame).is_err());
        assert_eq!(handler.handle::<()>(&frame), ImprovAction::Idle);
        assert_eq!(handler.state(), ImprovState::Authorized);
        assert_eq!(handler.error(), ImprovError::UnknownRpc);
        assert!(journal.borrow().is_empty());
    }
}

#[test]
fn other_commands_change_nothing_while_authorized() {
    for id in [0x02u8, 0x03, 0x04] {
        let (mut handler, journal) = handler(Err(MyceliumWifiError::Timeout), false);
        assert_eq!(handler.handle::<()>(&vec![id]), ImprovAction::Idle);
        assert_eq!(handler.status(), status(ImprovState::Authorized, ImprovError::NoError));

        // The error of a failed attempt stays as well.
        handler.handle::<()>(&settings_frame());
        assert_eq!(handler.error(), ImprovError::UnableToConnect);
        assert_eq!(handler.handle::<()>(&vec![id]), ImprovAction::Idle);
        assert_eq!(handler.status(), status(ImprovState::Authorized, ImprovError::UnableToConnect));
        assert_eq!(journal.borrow().len(), 1);
    }
}

#[test]
fn other_commands_are_invalid_rpc_while_not_authorized() {
    for id in [0x02u8, 0x03, 0x04] {
        let (mut handler, journal) = handler(Ok(None), false);
        assert_eq!(handler.handle::<()>(&settings_frame()), ImprovAction::Restart);
        assert_eq!(handler.state(), ImprovState::Provisioned);
        assert_eq!(handler.handle::<()>(&vec![id]), ImprovAction::Idle);
        assert_eq!(handler.status(), status(ImprovState::Provisioned, ImprovError::InvalidRpc));
        assert_eq!(journal.borrow().len(), 2);
    }
}

#[test]
fn reading_twice_gives_the_same_status() {
    let (mut handler, _) = handler(Err(MyceliumWifiError::NoIp), false);
    assert_eq!(handler.state(), handler.state());
    assert_eq!(handler.error(), handler.error());
    handler.handle::<()>(&settings_frame());
    let first = (handler.state(), handler.error(), handler.status());
    let second = (handler.state(), handler.error(), handler.status());
    assert_eq!(first, second);
    assert_eq!(handler.status().state_payload(), handler.status().state_payload());
    assert_eq!(handler.status().error_payload(), handler.status().error_payload());
    assert_eq!(handler.status().state_payload(), vec![0x02]);
    assert_eq!(handler.status().error_payload(), vec![0x03]);
}

#[test]
fn second_command_starts_after_the_first_resolved() {
    let (mut handler, journal) = handler(Err(MyceliumWifiError::Timeout), false);
    let shared = Mutex::new(&mut handler);
    let mut seen = Vec::new();
    for _ in 0..2 {
        let mut guard = shared.lock().unwrap();
        assert_ne!(guard.state(), ImprovState::Provisioning);
        guard.handle::<()>(&settings_frame());
        seen.push(guard.status());
    }
    assert_eq!(
        seen,
        vec![
            status(ImprovState::Authorized, ImprovError::UnableToConnect),
            status(ImprovState::Authorized, ImprovError::UnableToConnect)
        ]
    );
    assert_eq!(journal.borrow().len(), 2);
}

#[test]
fn retry_after_a_failure_clears_the_error() {
    let journal: Journal = Rc::new(RefCell::new(Vec::new()));
    let wifi = FakeWifi { outcome: Err(MyceliumWifiError::Esp(5)), journal: journal.clone() };
    let store = FakeStore { fails: false, entries: Vec::new(), journal: journal.clone() };
    let mut handler = ImprovHandler::new(wifi, store);
    handler.handle::<()>(&settings_frame());
    assert_eq!(handler.status(), status(ImprovState::Authorized, ImprovError::Unknown));
    handler.handle::<()>(&vec![0xee]);
    assert_eq!(handler.status(), status(ImprovState::Authorized, ImprovError::UnknownRpc));
}

#[test]
fn status_steps_of_a_successful_attempt() {
    let start = status(ImprovState::Authorized, ImprovError::NoError);
    let frame = ImprovCommand::from_bytes(&settings_frame());
    let (accepted, first) = start.on_frame(&frame);
    assert_eq!(accepted, status(ImprovState::Provisioning, ImprovError::NoError));
    assert_eq!(first, ImprovAction::Associate);
    let (associated, second) = accepted.on_association(Ok(Some(6)));
    assert_eq!(associated, status(ImprovState::Provisioned, ImprovError::NoError));
    assert_eq!(second, ImprovAction::Persist);
    let (ended, third) = associated.on_persistence(true);
    assert_eq!(ended, status(ImprovState::Provisioned, ImprovError::NoError));
    assert_eq!(third, ImprovAction::Restart);
}

#[test]
fn status_steps_of_failed_attempts() {
    let start = status(ImprovState::Authorized, ImprovError::InvalidRpc);
    let frame = ImprovCommand::from_bytes(&settings_frame());
    let (accepted, _) = start.on_frame(&frame);
    assert_eq!(accepted, status(ImprovState::Provisioning, ImprovError::NoError));

    assert_eq!(
        accepted.on_association(Err(MyceliumWifiError::Timeout)),
        (status(ImprovState::Authorized, ImprovError::UnableToConnect), ImprovAction::Idle)
    );
    assert_eq!(
        accepted.on_association(Err(MyceliumWifiError::NoIp)),
        (status(ImprovState::Authorized, ImprovError::UnableToConnect), ImprovAction::Idle)
    );
    assert_eq!(
        accepted.on_association(Err(MyceliumWifiError::Esp(261))),
        (status(ImprovState::Authorized, ImprovError::Unknown), ImprovAction::Idle)
    );
    let (associated, _) = accepted.on_association(Ok(None));
    assert_eq!(
        associated.on_persistence(false),
        (status(ImprovState::Authorized, ImprovError::Unknown), ImprovAction::Idle)
    );
}

#[test]
fn frames_and_the_status() {
    let stopped = status(ImprovState::Stopped, ImprovError::NoError);
    assert_eq!(
        stopped.on_frame(&Ok(ImprovCommand::GetCurrentState)),
        (status(ImprovState::Stopped, ImprovError::InvalidRpc), ImprovAction::Idle)
    );
    assert_eq!(
        stopped.on_frame(&Err(ImprovError::InvalidRpc)),
        (status(ImprovState::Stopped, ImprovError::UnknownRpc), ImprovAction::Idle)
    );
    assert_eq!(
        stopped.on_frame(&Err(ImprovError::UnknownRpc)),
        (status(ImprovState::Stopped, ImprovError::UnknownRpc), ImprovAction::Idle)
    );
    let authorized = status(ImprovState::Authorized, ImprovError::UnknownRpc);
    assert_eq!(
        authorized.on_frame(&Ok(ImprovCommand::GetDeviceInfo)),
        (authorized, ImprovAction::Idle)
    );
    assert_eq!(
        authorized.on_frame(&Ok(ImprovCommand::GetWifiNetworks)),
        (authorized, ImprovAction::Idle)
    );
}

#[test]
fn association_failures_and_their_errors() {
    assert_eq!(improv_error_for(MyceliumWifiError::Esp(0)), ImprovError::Unknown);
    assert_eq!(improv_error_for(MyceliumWifiError::Timeout), ImprovError::UnableToConnect);
    assert_eq!(improv_error_for(MyceliumWifiError::NoIp), ImprovError::UnableToConnect);
}

#[test]
fn attribute_payloads_are_one_byte() {
    assert_eq!(status(ImprovState::Stopped, ImprovError::NoError).state_payload(), vec![0x00]);
    assert_eq!(status(ImprovState::Provisioning, ImprovError::NoError).state_payload(), vec![0x03]);
    assert_eq!(status(ImprovState::Provisioned, ImprovError::Unknown).state_payload(), vec![0x04]);
    assert_eq!(status(ImprovState::Provisioned, ImprovError::Unknown).error_payload(), vec![0xff]);
    assert_eq!(
        status(ImprovState::Authorized, ImprovError::NotAuthorized).error_payload(),
        vec![0x04]
    );
}

#[test]
fn status_is_published_before_and_after_a_command() {
    let (handler, _) = handler(Ok(Some(6)), false);
    let published = Arc::new(RwLock::new(handler.status()));
    let reader = published.clone();
    let shared = Arc::new(Mutex::new(handler));
    let mut seen = Vec::new();

    let mut on_write = |bytes: Vec<u8>| {
        let mut handler = shared.lock().unwrap();
        let (accepted, _) = handler.status().on_frame(&ImprovCommand::from_bytes(&bytes));
        *published.write().unwrap() = accepted;
        seen.push(reader.read().unwrap().state_payload());
        let action = handler.handle::<()>(&bytes);
        *published.write().unwrap() = handler.status();
        seen.push(reader.read().unwrap().state_payload());
        action
    };

    assert_eq!(on_write(vec![0x02]), ImprovAction::Idle);
    assert_eq!(on_write(settings_frame()), ImprovAction::Restart);
    assert_eq!(seen, vec![vec![0x02], vec![0x02], vec![0x03], vec![0x04]]);
    assert_eq!(reader.read().unwrap().error_payload(), vec![0x00]);
}
