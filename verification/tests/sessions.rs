use std::cell::RefCell;

use blurz::bluetooth_device::BluetoothDevice;
use blurz::bluetooth_discovery_session::BluetoothDiscoverySession;
use blurz::bluetooth_gatt_characteristic::BluetoothGATTCharacteristic;
use blurz::bluetooth_gatt_descriptor::BluetoothGATTDescriptor;
use blurz::bluetooth_gatt_service::BluetoothGATTService;
use blurz::bluetooth_obex::{
    display_name, keeps_waiting, next_step, BluetoothOBEXSession, BluetoothOBEXTransfer, Clock,
    SessionTarget, TransferState, WaitStep, POLL_INTERVAL_MS,
};
use blurz::errors::{Error, ErrorKind};
use blurz::transport::{BusKind, Operation, Outcome, Request, Transport};
use blurz::value::Value;

/// Answers each round trip with the next outcome of a script, and with
/// `active` for ever once the script is used up.
struct Scripted {
    script: RefCell<Vec<Outcome>>,
    seen: RefCell<Vec<Request>>,
}

impl Scripted {
    fn new(mut script: Vec<Outcome>) -> Scripted {
        script.reverse();
        Scripted { script: RefCell::new(script), seen: RefCell::new(Vec::new()) }
    }

    fn trips(&self) -> usize {
        self.seen.borrow().len()
    }

    fn next(&self) -> Request {
        self.seen.borrow_mut().remove(0)
    }
}

impl Transport for Scripted {
    fn round_trip(&self, request: &Request) -> Outcome {
        self.seen.borrow_mut().push(copy(request));
        match self.script.borrow_mut().pop() {
            Some(outcome) => outcome,
            None => Outcome::Reply(vec![Value::text("active")]),
        }
    }
}

struct Sleeps {
    slept: RefCell<Vec<u64>>,
}

impl Clock for Sleeps {
    fn sleep(&self, millis: u64) {
        self.slept.borrow_mut().push(millis);
    }
}

fn clock() -> Sleeps {
    Sleeps { slept: RefCell::new(Vec::new()) }
}

fn copy(request: &Request) -> Request {
    Request {
        bus: request.bus,
        service: request.service.clone(),
        path: request.path.clone(),
        interface: request.interface.clone(),
        operation: match &request.operation {
            Operation::Read(name) => Operation::Read(name.clone()),
            Operation::Write(name, value) => Operation::Write(name.clone(), value.duplicate()),
            Operation::Invoke(method, args) => {
                Operation::Invoke(method.clone(), args.iter().map(|v| v.duplicate()).collect())
            }
        },
        timeout_ms: request.timeout_ms,
    }
}

fn request(bus: BusKind, service: &str, path: &str, interface: &str, operation: Operation) -> Request {
    Request {
        bus,
        service: service.to_string(),
        path: path.to_string(),
        interface: interface.to_string(),
        operation,
        timeout_ms: 1000,
    }
}

fn call(method: &str, args: Vec<Value>) -> Operation {
    Operation::Invoke(method.to_string(), args)
}

fn word(status: &str) -> Outcome {
    Outcome::Reply(vec![Value::text(status)])
}

fn entry(name: &str, value: Value) -> Value {
    Value::DictEntry(Box::new(Value::text(name)), Box::new(Value::Variant(Box::new(value))))
}

fn dictionary(entries: Vec<Value>) -> Value {
    Value::Array(entries, "{sv}".to_string())
}

fn refused() -> Outcome {
    Outcome::Refused { name: "org.bluez.Error.Failed".to_string(), message: "no".to_string() }
}

#[test]
fn a_session_is_made_without_a_round_trip() {
    let bus = Scripted::new(vec![]);
    let session = BluetoothDiscoverySession::create_session(&bus, "/org/bluez/hci0".to_string());
    assert!(session.is_ok());
    assert_eq!(bus.trips(), 0);
}

#[test]
fn stop_without_start_fails_only_where_the_daemon_objects() {
    let bus = Scripted::new(vec![Outcome::Reply(vec![]), refused()]);
    let session = BluetoothDiscoverySession::create_session(&bus, "/org/bluez/hci0".to_string()).unwrap();
    assert_eq!(session.stop_discovery(), Ok(()));
    assert_eq!(
        bus.next(),
        request(BusKind::System, "org.bluez", "/org/bluez/hci0", "org.bluez.Adapter1", call("StopDiscovery", vec![]))
    );
    assert_eq!(session.stop_discovery().unwrap_err(), Error::new(ErrorKind::RemoteRejected, "no"));
}

#[test]
fn start_may_be_called_twice() {
    let bus = Scripted::new(vec![Outcome::Reply(vec![]), Outcome::Reply(vec![]), Outcome::Reply(vec![])]);
    let session = BluetoothDiscoverySession::create_session(&bus, "/org/bluez/hci0".to_string()).unwrap();
    assert_eq!(session.start_discovery(), Ok(()));
    assert_eq!(session.start_discovery(), Ok(()));
    assert_eq!(session.stop_discovery(), Ok(()));
    let start =
        || request(BusKind::System, "org.bluez", "/org/bluez/hci0", "org.bluez.Adapter1", call("StartDiscovery", vec![]));
    assert_eq!(bus.next(), start());
    assert_eq!(bus.next(), start());
    assert_eq!(bus.trips(), 1);
}

#[test]
fn the_discovery_filter_holds_what_is_given_in_order() {
    let bus = Scripted::new(vec![Outcome::Reply(vec![]), Outcome::Reply(vec![]), Outcome::Reply(vec![])]);
    let session = BluetoothDiscoverySession::create_session(&bus, "/org/bluez/hci0".to_string()).unwrap();
    let uuids = vec!["180f".to_string(), "1812".to_string()];
    session.set_discovery_filter(uuids.clone(), Some(-70), Some(12)).unwrap();
    let filter = |entries: Vec<Value>| {
        request(
            BusKind::System,
            "org.bluez",
            "/org/bluez/hci0",
            "org.bluez.Adapter1",
            call("SetDiscoveryFilter", vec![dictionary(entries)]),
        )
    };
    assert_eq!(
        bus.next(),
        filter(vec![
            entry("UUIDs", Value::Array(vec![Value::text("180f"), Value::text("1812")], "s".to_string())),
            entry("RSSI", Value::Int16(-70)),
            entry("Pathloss", Value::UInt16(12)),
        ])
    );
    session.set_discovery_filter(vec![], None, Some(3)).unwrap();
    assert_eq!(
        bus.next(),
        filter(vec![
            entry("UUIDs", Value::Array(vec![], "s".to_string())),
            entry("Pathloss", Value::UInt16(3)),
        ])
    );
    session.set_discovery_filter(uuids, None, None).unwrap();
    assert_eq!(
        bus.next(),
        filter(vec![entry(
            "UUIDs",
            Value::Array(vec![Value::text("180f"), Value::text("1812")], "s".to_string())
        )])
    );
}

#[test]
fn a_characteristic_reads_its_value_from_an_offset() {
    let bus = Scripted::new(vec![
        Outcome::Reply(vec![Value::bytes(&vec![9, 8, 7])]),
        Outcome::Reply(vec![Value::bytes(&vec![])]),
        Outcome::Reply(vec![Value::text("no bytes")]),
        Outcome::Reply(vec![]),
        refused(),
    ]);
    let characteristic = BluetoothGATTCharacteristic::new("/c".to_string());
    let read = |options: Vec<Value>| {
        request(
            BusKind::System,
            "org.bluez",
            "/c",
            "org.bluez.GattCharacteristic1",
            call("ReadValue", vec![dictionary(options)]),
        )
    };
    assert_eq!(characteristic.read_value(&bus, None).unwrap(), vec![9, 8, 7]);
    assert_eq!(bus.next(), read(vec![]));
    assert_eq!(characteristic.read_value(&bus, Some(2)).unwrap(), Vec::<u8>::new());
    assert_eq!(bus.next(), read(vec![entry("offset", Value::UInt16(2))]));
    assert_eq!(characteristic.read_value(&bus, None).unwrap_err().kind, ErrorKind::TypeMismatch);
    assert_eq!(characteristic.read_value(&bus, None).unwrap_err().kind, ErrorKind::TypeMismatch);
    assert_eq!(characteristic.read_value(&bus, None).unwrap_err().kind, ErrorKind::RemoteRejected);
}

#[test]
fn a_characteristic_writes_bytes_at_an_offset() {
    let bus = Scripted::new(vec![Outcome::Reply(vec![]), Outcome::Reply(vec![]), refused()]);
    let characteristic = BluetoothGATTCharacteristic::new("/c".to_string());
    let write = |bytes: Vec<Value>, options: Vec<Value>| {
        request(
            BusKind::System,
            "org.bluez",
            "/c",
            "org.bluez.GattCharacteristic1",
            call("WriteValue", vec![Value::Array(bytes, "y".to_string()), dictionary(options)]),
        )
    };
    characteristic.write_value(&bus, vec![1, 2], Some(7)).unwrap();
    assert_eq!(
        bus.next(),
        write(vec![Value::Byte(1), Value::Byte(2)], vec![entry("offset", Value::UInt16(7))])
    );
    characteristic.write_value(&bus, vec![], None).unwrap();
    assert_eq!(bus.next(), write(vec![], vec![]));
    assert_eq!(characteristic.write_value(&bus, vec![1], None).unwrap_err().kind, ErrorKind::RemoteRejected);
}

#[test]
fn a_characteristic_reads_its_properties_and_notifies() {
    let characteristic = BluetoothGATTCharacteristic::new("/c".to_string());
    let bus = Scripted::new(vec![
        Outcome::Reply(vec![Value::text("2a19")]),
        Outcome::Reply(vec![Value::object_path("/s")]),
        Outcome::Reply(vec![Value::bytes(&vec![100])]),
        Outcome::Reply(vec![Value::Bool(true)]),
        Outcome::Reply(vec![Value::texts(&vec!["read".to_string(), "notify".to_string()])]),
        Outcome::Reply(vec![]),
        Outcome::Reply(vec![]),
    ]);
    let read = |name: &str| {
        request(BusKind::System, "org.bluez", "/c", "org.bluez.GattCharacteristic1", Operation::Read(name.to_string()))
    };
    assert_eq!(characteristic.get_uuid(&bus).unwrap(), "2a19");
    assert_eq!(bus.next(), read("UUID"));
    assert_eq!(characteristic.get_service(&bus).unwrap(), "/s");
    assert_eq!(bus.next(), read("Service"));
    assert_eq!(characteristic.get_value(&bus).unwrap(), vec![100]);
    assert_eq!(bus.next(), read("Value"));
    assert!(characteristic.is_notifying(&bus).unwrap());
    assert_eq!(bus.next(), read("Notifying"));
    assert_eq!(characteristic.get_flags(&bus).unwrap(), vec!["read".to_string(), "notify".to_string()]);
    assert_eq!(bus.next(), read("Flags"));
    characteristic.start_notify(&bus).unwrap();
    assert_eq!(
        bus.next(),
        request(BusKind::System, "org.bluez", "/c", "org.bluez.GattCharacteristic1", call("StartNotify", vec![]))
    );
    characteristic.stop_notify(&bus).unwrap();
    assert_eq!(
        bus.next(),
        request(BusKind::System, "org.bluez", "/c", "org.bluez.GattCharacteristic1", call("StopNotify", vec![]))
    );
}

#[test]
fn a_descriptor_reads_and_writes_like_a_characteristic() {
    let descriptor = BluetoothGATTDescriptor::new("/d".to_string());
    let bus = Scripted::new(vec![
        Outcome::Reply(vec![Value::text("2902")]),
        Outcome::Reply(vec![Value::object_path("/c")]),
        Outcome::Reply(vec![Value::bytes(&vec![1, 0])]),
        Outcome::Reply(vec![Value::texts(&vec!["read".to_string()])]),
        Outcome::Reply(vec![Value::bytes(&vec![5])]),
        Outcome::Reply(vec![]),
    ]);
    let on = |operation: Operation| request(BusKind::System, "org.bluez", "/d", "org.bluez.GattDescriptor1", operation);
    assert_eq!(descriptor.get_uuid(&bus).unwrap(), "2902");
    assert_eq!(bus.next(), on(Operation::Read("UUID".to_string())));
    assert_eq!(descriptor.get_characteristic(&bus).unwrap(), "/c");
    assert_eq!(bus.next(), on(Operation::Read("Characteristic".to_string())));
    assert_eq!(descriptor.get_value(&bus).unwrap(), vec![1, 0]);
    assert_eq!(bus.next(), on(Operation::Read("Value".to_string())));
    assert_eq!(descriptor.get_flags(&bus).unwrap(), vec!["read".to_string()]);
    assert_eq!(bus.next(), on(Operation::Read("Flags".to_string())));
    assert_eq!(descriptor.read_value(&bus, Some(1)).unwrap(), vec![5]);
    assert_eq!(bus.next(), on(call("ReadValue", vec![dictionary(vec![entry("offset", Value::UInt16(1))])])));
    descriptor.write_value(&bus, vec![3], None).unwrap();
    assert_eq!(
        bus.next(),
        on(call("WriteValue", vec![Value::Array(vec![Value::Byte(3)], "y".to_string()), dictionary(vec![])]))
    );
}

#[test]
fn a_service_reads_its_properties() {
    let service = BluetoothGATTService::new("/s".to_string());
    let bus = Scripted::new(vec![
        Outcome::Reply(vec![Value::text("180f")]),
        Outcome::Reply(vec![Value::Bool(true)]),
        Outcome::Reply(vec![Value::object_path("/dev")]),
    ]);
    let read =
        |name: &str| request(BusKind::System, "org.bluez", "/s", "org.bluez.GattService1", Operation::Read(name.to_string()));
    assert_eq!(service.get_uuid(&bus).unwrap(), "180f");
    assert_eq!(bus.next(), read("UUID"));
    assert!(service.is_primary(&bus).unwrap());
    assert_eq!(bus.next(), read("Primary"));
    assert_eq!(service.get_device(&bus).unwrap(), "/dev");
    assert_eq!(bus.next(), read("Device"));
}

#[test]
fn targets_and_states_have_their_words() {
    assert_eq!(SessionTarget::Ftp.as_str(), "ftp");
    assert_eq!(SessionTarget::Map_.as_str(), "map");
    assert_eq!(SessionTarget::Opp.as_str(), "opp");
    assert_eq!(SessionTarget::Pbap.as_str(), "pbap");
    assert_eq!(SessionTarget::Sync_.as_str(), "sync");
    let states = [
        (TransferState::Queued, "queued"),
        (TransferState::Active, "active"),
        (TransferState::Complete, "complete"),
        (TransferState::Suspended, "suspended"),
        (TransferState::Error, "error"),
    ];
    for (state, text) in states {
        assert_eq!(state.as_str(), text);
        assert_eq!(TransferState::from_status(text), Some(state));
    }
    assert_eq!(TransferState::from_status("Complete"), None);
    assert_eq!(TransferState::from_status(""), None);
}

fn open(bus: &Scripted) -> BluetoothOBEXSession<'_, Scripted> {
    let device = BluetoothDevice::new("/org/bluez/hci0/dev_A".to_string());
    BluetoothOBEXSession::new(bus, &device).unwrap()
}

fn opening() -> Vec<Outcome> {
    vec![
        Outcome::Reply(vec![Value::text("AA:BB:CC:DD:EE:FF")]),
        Outcome::Reply(vec![Value::object_path("/org/bluez/obex/client/session0")]),
    ]
}

fn sending() -> Vec<Outcome> {
    let mut script = opening();
    script.push(Outcome::Reply(vec![
        Value::object_path("/org/bluez/obex/client/session0/transfer0"),
        dictionary(vec![]),
    ]));
    script
}

#[test]
fn a_session_opens_with_the_address_of_the_device() {
    let bus = Scripted::new(opening());
    let session = open(&bus);
    assert_eq!(
        bus.next(),
        request(
            BusKind::System,
            "org.bluez",
            "/org/bluez/hci0/dev_A",
            "org.bluez.Device1",
            Operation::Read("Address".to_string())
        )
    );
    assert_eq!(
        bus.next(),
        request(
            BusKind::Session,
            "org.bluez.obex",
            "/org/bluez/obex",
            "org.bluez.obex.Client1",
            call(
                "CreateSession",
                vec![Value::text("AA:BB:CC:DD:EE:FF"), dictionary(vec![entry("Target", Value::text("opp"))])]
            )
        )
    );
    session.remove_session().unwrap();
    assert_eq!(
        bus.next(),
        request(
            BusKind::Session,
            "org.bluez.obex",
            "/org/bluez/obex",
            "org.bluez.obex.Client1",
            call("RemoveSession", vec![Value::object_path("/org/bluez/obex/client/session0")])
        )
    );
}

#[test]
fn a_session_opens_for_the_given_target() {
    let bus = Scripted::new(opening());
    let device = BluetoothDevice::new("/d".to_string());
    assert!(BluetoothOBEXSession::with_target(&bus, &device, SessionTarget::Pbap).is_ok());
    bus.next();
    assert_eq!(
        bus.next().operation,
        call(
            "CreateSession",
            vec![Value::text("AA:BB:CC:DD:EE:FF"), dictionary(vec![entry("Target", Value::text("pbap"))])]
        )
    );
}

#[test]
fn a_session_does_not_open_without_an_address_or_a_path() {
    let device = BluetoothDevice::new("/d".to_string());
    let unknown = Scripted::new(vec![refused()]);
    assert_eq!(
        BluetoothOBEXSession::new(&unknown, &device).err().unwrap().kind,
        ErrorKind::RemoteRejected
    );
    assert_eq!(unknown.trips(), 1);
    let declined = Scripted::new(vec![Outcome::Reply(vec![Value::text("AA")]), refused()]);
    assert_eq!(
        BluetoothOBEXSession::new(&declined, &device).err().unwrap().kind,
        ErrorKind::RemoteRejected
    );
    let no_path = Scripted::new(vec![Outcome::Reply(vec![Value::text("AA")]), Outcome::Reply(vec![Value::text("/s")])]);
    assert_eq!(
        BluetoothOBEXSession::new(&no_path, &device).err().unwrap().kind,
        ErrorKind::TypeMismatch
    );
    let silent = Scripted::new(vec![Outcome::NoReply]);
    assert_eq!(BluetoothOBEXSession::new(&silent, &device).err().unwrap().kind, ErrorKind::Timeout);
}

#[test]
fn a_file_is_sent_under_its_base_name() {
    let bus = Scripted::new(sending());
    let session = open(&bus);
    let transfer = BluetoothOBEXTransfer::send_file(&session, "/home/user/photos/cat.jpg").unwrap();
    assert_eq!(transfer.name_str(), "cat.jpg");
    bus.next();
    bus.next();
    assert_eq!(
        bus.next(),
        request(
            BusKind::Session,
            "org.bluez.obex",
            "/org/bluez/obex/client/session0",
            "org.bluez.obex.ObjectPush1",
            call("SendFile", vec![Value::text("/home/user/photos/cat.jpg")])
        )
    );
}

#[test]
fn a_file_without_a_base_name_is_sent_under_its_path() {
    assert_eq!(display_name("/a/b.txt", Some("b.txt".to_string())), "b.txt");
    assert_eq!(display_name("/a/..", None), "/a/..");
    let bus = Scripted::new(sending());
    let session = open(&bus);
    let transfer = BluetoothOBEXTransfer::send_file(&session, "..").unwrap();
    assert_eq!(transfer.name_str(), "..");
    let bus = Scripted::new(sending());
    let session = open(&bus);
    let transfer = BluetoothOBEXTransfer::send_file(&session, "plain").unwrap();
    assert_eq!(transfer.name_str(), "plain");
    let bus = Scripted::new(sending());
    let session = open(&bus);
    let transfer = BluetoothOBEXTransfer::send_file(&session, "dir/sub/").unwrap();
    assert_eq!(transfer.name_str(), "sub");
}

#[test]
fn a_file_is_not_sent_where_the_daemon_declines() {
    let mut script = opening();
    script.push(refused());
    let bus = Scripted::new(script);
    let session = open(&bus);
    assert_eq!(
        BluetoothOBEXTransfer::send_file(&session, "/a").err().unwrap().kind,
        ErrorKind::RemoteRejected
    );
}

fn transfer_with(statuses: Vec<Outcome>) -> Scripted {
    let mut script = sending();
    script.extend(statuses);
    Scripted::new(script)
}

#[test]
fn the_status_is_read_from_the_transfer() {
    let bus = transfer_with(vec![word("queued"), word("paused"), Outcome::Reply(vec![Value::UInt32(1)]), refused()]);
    let session = open(&bus);
    let transfer = BluetoothOBEXTransfer::send_file(&session, "/a").unwrap();
    bus.next();
    bus.next();
    bus.next();
    assert_eq!(transfer.status().unwrap(), "queued");
    assert_eq!(
        bus.next(),
        request(
            BusKind::Session,
            "org.bluez.obex",
            "/org/bluez/obex/client/session0/transfer0",
            "org.bluez.obex.Transfer1",
            Operation::Read("Status".to_string())
        )
    );
    assert_eq!(transfer.status().unwrap(), "paused");
    assert_eq!(transfer.status().unwrap_err().kind, ErrorKind::TypeMismatch);
    assert_eq!(transfer.status().unwrap_err().kind, ErrorKind::RemoteRejected);
}

#[test]
fn the_state_is_the_status_narrowed() {
    let bus = transfer_with(vec![word("suspended"), word("complete"), word("paused"), Outcome::NoReply]);
    let session = open(&bus);
    let transfer = BluetoothOBEXTransfer::send_file(&session, "/a").unwrap();
    assert_eq!(transfer.state().unwrap(), TransferState::Suspended);
    assert_eq!(transfer.state().unwrap(), TransferState::Complete);
    assert_eq!(transfer.state().unwrap_err().kind, ErrorKind::TypeMismatch);
    assert_eq!(transfer.state().unwrap_err().kind, ErrorKind::Timeout);
}

fn polls_until(statuses: Vec<Outcome>, limit: usize) -> (usize, Vec<u64>) {
    let bus = transfer_with(statuses);
    let session = open(&bus);
    let transfer = BluetoothOBEXTransfer::send_file(&session, "/a").unwrap();
    let before = bus.trips();
    let clock = clock();
    assert_eq!(transfer.wait_until_transfer_completed(&clock, limit), Ok(()));
    let slept = clock.slept.borrow().clone();
    (bus.trips() - before, slept)
}

#[test]
fn the_wait_ends_on_the_poll_that_shows_complete() {
    let (polls, slept) = polls_until(vec![word("queued"), word("active"), word("active"), word("complete")], 100);
    assert_eq!(polls, 4);
    assert_eq!(slept, vec![500, 500, 500, 500]);
    assert_eq!(POLL_INTERVAL_MS, 500);
    assert_eq!(polls_until(vec![word("complete")], 100).0, 1);
}

#[test]
fn the_wait_ends_on_the_poll_that_shows_error() {
    assert_eq!(polls_until(vec![word("active"), word("error"), word("complete")], 100).0, 2);
    assert_eq!(polls_until(vec![word("error")], 100).0, 1);
}

#[test]
fn the_wait_ends_on_a_status_that_cannot_be_read() {
    assert_eq!(polls_until(vec![word("active"), refused()], 100).0, 2);
    assert_eq!(polls_until(vec![Outcome::NoReply], 100).0, 1);
    assert_eq!(polls_until(vec![Outcome::Unreachable("gone".to_string())], 100).0, 1);
    assert_eq!(polls_until(vec![word("active"), Outcome::Reply(vec![Value::UInt32(3)])], 100).0, 2);
}

#[test]
fn the_wait_ends_at_its_limit() {
    assert_eq!(polls_until(vec![], 7).0, 7);
    assert_eq!(polls_until(vec![word("suspended"), word("queued")], 2).0, 2);
    let (polls, slept) = polls_until(vec![word("complete")], 0);
    assert_eq!(polls, 0);
    assert_eq!(slept, Vec::<u64>::new());
}

#[test]
fn one_reading_says_whether_the_wait_goes_on() {
    assert!(keeps_waiting(&Ok("queued".to_string())));
    assert!(keeps_waiting(&Ok("active".to_string())));
    assert!(keeps_waiting(&Ok("suspended".to_string())));
    assert!(keeps_waiting(&Ok("anything".to_string())));
    assert!(!keeps_waiting(&Ok("complete".to_string())));
    assert!(!keeps_waiting(&Ok("error".to_string())));
    assert!(!keeps_waiting(&Err(Error::new(ErrorKind::Timeout, "late"))));
}

#[test]
fn the_next_step_is_to_poll_until_the_wait_ends_or_the_limit_is_reached() {
    let active: Result<String, Error> = Ok("active".to_string());
    let complete: Result<String, Error> = Ok("complete".to_string());
    let error: Result<String, Error> = Ok("error".to_string());
    let failed: Result<String, Error> = Err(Error::new(ErrorKind::Timeout, "late"));
    assert_eq!(next_step(0, 3, None), WaitStep::Poll(500));
    assert_eq!(next_step(1, 3, Some(&active)), WaitStep::Poll(500));
    assert_eq!(next_step(2, 3, Some(&active)), WaitStep::Poll(500));
    assert_eq!(next_step(3, 3, Some(&active)), WaitStep::Stop);
    assert_eq!(next_step(4, 3, Some(&active)), WaitStep::Stop);
    assert_eq!(next_step(1, 3, Some(&complete)), WaitStep::Stop);
    assert_eq!(next_step(1, 3, Some(&error)), WaitStep::Stop);
    assert_eq!(next_step(1, 3, Some(&failed)), WaitStep::Stop);
    assert_eq!(next_step(0, 0, None), WaitStep::Stop);
}

#[test]
fn the_wait_sleeps_once_before_each_reading_and_reads_nothing_after_the_end() {
    let (polls, slept) = polls_until(vec![word("active"), word("complete"), word("active"), word("complete")], 100);
    assert_eq!(polls, 2);
    assert_eq!(slept, vec![500, 500]);
    let (polls, slept) = polls_until(vec![word("error"), word("complete")], 100);
    assert_eq!(polls, 1);
    assert_eq!(slept, vec![500]);
    let (polls, slept) = polls_until(vec![], 3);
    assert_eq!(polls, 3);
    assert_eq!(slept, vec![500, 500, 500]);
}
