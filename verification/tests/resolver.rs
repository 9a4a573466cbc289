use std::cell::RefCell;

use blurz::bluetooth_adapter::BluetoothAdapter;
use blurz::bluetooth_device::BluetoothDevice;
use blurz::bluetooth_gatt_characteristic::BluetoothGATTCharacteristic;
use blurz::bluetooth_gatt_service::BluetoothGATTService;
use blurz::bluetooth_utils::{
    get_adapters, get_managed_objects, list_characteristics, list_descriptors, list_devices,
    list_item, list_services,
};
use blurz::errors::ErrorKind;
use blurz::memory::{encode_objects, MemoryDaemon};
use blurz::objects::{
    decode_objects, paths_implementing, paths_of_children, Interface, Property, RemoteObject,
};
use blurz::transport::{Outcome, Request, Transport};
use blurz::value::Value;

struct Fake {
    daemon: RefCell<MemoryDaemon>,
    trips: RefCell<usize>,
}

impl Fake {
    fn holding(objects: Vec<RemoteObject>) -> Fake {
        Fake { daemon: RefCell::new(MemoryDaemon::new(objects)), trips: RefCell::new(0) }
    }
}

impl Transport for Fake {
    fn round_trip(&self, request: &Request) -> Outcome {
        *self.trips.borrow_mut() += 1;
        self.daemon.borrow_mut().answer(request)
    }
}

struct Answering {
    reply: Value,
}

impl Transport for Answering {
    fn round_trip(&self, _request: &Request) -> Outcome {
        Outcome::Reply(vec![self.reply.duplicate()])
    }
}

struct Unreachable;

impl Transport for Unreachable {
    fn round_trip(&self, _request: &Request) -> Outcome {
        Outcome::Unreachable("no bus".to_string())
    }
}

fn object(path: &str, interfaces: Vec<(&str, Vec<(&str, Value)>)>) -> RemoteObject {
    RemoteObject {
        path: path.to_string(),
        interfaces: interfaces
            .into_iter()
            .map(|(name, properties)| Interface {
                name: name.to_string(),
                properties: properties
                    .into_iter()
                    .map(|(name, value)| Property { name: name.to_string(), value })
                    .collect(),
            })
            .collect(),
    }
}

fn adapter(path: &str) -> RemoteObject {
    object(
        path,
        vec![
            ("org.freedesktop.DBus.Introspectable", vec![]),
            ("org.bluez.Adapter1", vec![("Address", Value::text("00:11:22:33:44:55"))]),
        ],
    )
}

fn device(path: &str, adapter: &str) -> RemoteObject {
    object(
        path,
        vec![(
            "org.bluez.Device1",
            vec![("Name", Value::text("pad")), ("Adapter", Value::object_path(adapter))],
        )],
    )
}

fn child(path: &str, interface: &str, property: &str, parent: &str) -> RemoteObject {
    object(path, vec![(interface, vec![(property, Value::object_path(parent))])])
}

fn house() -> Vec<RemoteObject> {
    vec![
        object("/org/bluez", vec![("org.bluez.AgentManager1", vec![])]),
        adapter("/org/bluez/hci0"),
        device("/org/bluez/hci0/dev_A", "/org/bluez/hci0"),
        adapter("/org/bluez/hci1"),
        device("/org/bluez/hci1/dev_B", "/org/bluez/hci1"),
        device("/org/bluez/hci0/dev_C", "/org/bluez/hci0"),
        child("/org/bluez/hci0/dev_A/service1", "org.bluez.GattService1", "Device", "/org/bluez/hci0/dev_A"),
        child("/org/bluez/hci0/dev_A/service2", "org.bluez.GattService1", "Device", "/org/bluez/hci0/dev_A"),
        child("/org/bluez/hci0/dev_C/service1", "org.bluez.GattService1", "Device", "/org/bluez/hci0/dev_C"),
        child(
            "/org/bluez/hci0/dev_A/service1/char1",
            "org.bluez.GattCharacteristic1",
            "Service",
            "/org/bluez/hci0/dev_A/service1",
        ),
        child(
            "/org/bluez/hci0/dev_A/service1/char1/desc1",
            "org.bluez.GattDescriptor1",
            "Characteristic",
            "/org/bluez/hci0/dev_A/service1/char1",
        ),
    ]
}

fn strings(list: &[&str]) -> Vec<String> {
    list.iter().map(|s| s.to_string()).collect()
}

#[test]
fn children_are_the_owned_of_the_kind_each_once_in_order() {
    let objects = house();
    assert_eq!(
        paths_of_children(&objects, "org.bluez.Device1", "Adapter", "/org/bluez/hci0"),
        strings(&["/org/bluez/hci0/dev_A", "/org/bluez/hci0/dev_C"])
    );
    assert_eq!(
        paths_of_children(&objects, "org.bluez.Device1", "Adapter", "/org/bluez/hci1"),
        strings(&["/org/bluez/hci1/dev_B"])
    );
    assert_eq!(
        paths_of_children(&objects, "org.bluez.Device1", "Adapter", "/org/bluez/hci2"),
        Vec::<String>::new()
    );
}

#[test]
fn children_compare_the_parent_exactly() {
    let objects = vec![
        device("/a", "/org/bluez/hci0"),
        device("/b", "/org/bluez/hci0/"),
        device("/c", "/org/bluez/hci"),
        device("/d", "/ORG/bluez/hci0"),
    ];
    assert_eq!(
        paths_of_children(&objects, "org.bluez.Device1", "Adapter", "/org/bluez/hci0"),
        strings(&["/a"])
    );
}

#[test]
fn children_need_the_interface_and_the_property_under_it() {
    let objects = vec![
        object("/elsewhere", vec![("org.bluez.Other1", vec![("Adapter", Value::text("/p"))])]),
        object("/no_property", vec![("org.bluez.Device1", vec![("Name", Value::text("x"))])]),
        object("/not_text", vec![("org.bluez.Device1", vec![("Adapter", Value::UInt32(1))])]),
        object("/as_string", vec![("org.bluez.Device1", vec![("Adapter", Value::text("/p"))])]),
        object(
            "/second_interface",
            vec![("org.bluez.Other1", vec![]), ("org.bluez.Device1", vec![("Adapter", Value::object_path("/p"))])],
        ),
    ];
    assert_eq!(
        paths_of_children(&objects, "org.bluez.Device1", "Adapter", "/p"),
        strings(&["/as_string", "/second_interface"])
    );
}

#[test]
fn children_of_an_empty_enumeration_are_none() {
    assert_eq!(
        paths_of_children(&vec![], "org.bluez.Device1", "Adapter", "/p"),
        Vec::<String>::new()
    );
    assert_eq!(paths_implementing(&vec![], "org.bluez.Adapter1"), Vec::<String>::new());
}

#[test]
fn adapters_are_the_objects_of_the_adapter_interface() {
    assert_eq!(
        paths_implementing(&house(), "org.bluez.Adapter1"),
        strings(&["/org/bluez/hci0", "/org/bluez/hci1"])
    );
}

#[test]
fn lookups_take_the_first_entry_of_a_name() {
    let o = object(
        "/o",
        vec![
            ("i", vec![("p", Value::UInt32(1)), ("p", Value::UInt32(2))]),
            ("i", vec![("p", Value::UInt32(3)), ("q", Value::UInt32(4))]),
        ],
    );
    assert!(o.implements("i"));
    assert!(!o.implements("j"));
    assert_eq!(o.property("i", "p"), Some(&Value::UInt32(1)));
    assert_eq!(o.property("i", "q"), None);
    assert_eq!(o.property("j", "p"), None);
    assert_eq!(o.interface("i").unwrap().properties.len(), 2);
    assert!(o.interface("k").is_none());
    assert!(!o.is_child_of("i", "p", "/x"));
}

#[test]
fn enumeration_reads_back_what_went_into_it() {
    let objects = house();
    let carried = encode_objects(&objects);
    assert_eq!(decode_objects(&carried), Some(house()));
    assert_eq!(decode_objects(&encode_objects(&vec![])), Some(vec![]));
}

#[test]
fn enumeration_of_another_shape_has_no_reading() {
    assert_eq!(decode_objects(&Value::text("x")), None);
    let not_entries = Value::Array(vec![Value::text("x")], "s".to_string());
    assert_eq!(decode_objects(&not_entries), None);
    let bad_interfaces = Value::Array(
        vec![Value::DictEntry(Box::new(Value::object_path("/a")), Box::new(Value::UInt32(1)))],
        "{ou}".to_string(),
    );
    assert_eq!(decode_objects(&bad_interfaces), None);
    let bad_key = Value::Array(
        vec![Value::DictEntry(
            Box::new(Value::UInt32(1)),
            Box::new(Value::Array(vec![], "{sa{sv}}".to_string())),
        )],
        "{ua{sa{sv}}}".to_string(),
    );
    assert_eq!(decode_objects(&bad_key), None);
}

#[test]
fn property_values_lose_their_variant_wrapper() {
    let carried = Value::Array(
        vec![Value::DictEntry(
            Box::new(Value::object_path("/a")),
            Box::new(Value::Array(
                vec![Value::DictEntry(
                    Box::new(Value::text("i")),
                    Box::new(Value::Array(
                        vec![
                            Value::DictEntry(
                                Box::new(Value::text("wrapped")),
                                Box::new(Value::Variant(Box::new(Value::Bool(true)))),
                            ),
                            Value::DictEntry(
                                Box::new(Value::text("bare")),
                                Box::new(Value::Bool(false)),
                            ),
                        ],
                        "{sv}".to_string(),
                    )),
                )],
                "{sa{sv}}".to_string(),
            )),
        )],
        "{oa{sa{sv}}}".to_string(),
    );
    let objects = decode_objects(&carried).unwrap();
    assert_eq!(
        objects,
        vec![object("/a", vec![("i", vec![("wrapped", Value::Bool(true)), ("bare", Value::Bool(false))])])]
    );
}

#[test]
fn listing_takes_one_round_trip() {
    let fake = Fake::holding(house());
    let devices = list_devices(&fake, &"/org/bluez/hci0".to_string()).unwrap();
    assert_eq!(devices, strings(&["/org/bluez/hci0/dev_A", "/org/bluez/hci0/dev_C"]));
    assert_eq!(*fake.trips.borrow(), 1);
}

#[test]
fn listing_each_kind_by_its_back_reference() {
    let fake = Fake::holding(house());
    assert_eq!(
        list_services(&fake, &"/org/bluez/hci0/dev_A".to_string()).unwrap(),
        strings(&["/org/bluez/hci0/dev_A/service1", "/org/bluez/hci0/dev_A/service2"])
    );
    assert_eq!(
        list_characteristics(&fake, &"/org/bluez/hci0/dev_A/service1".to_string()).unwrap(),
        strings(&["/org/bluez/hci0/dev_A/service1/char1"])
    );
    assert_eq!(
        list_descriptors(&fake, &"/org/bluez/hci0/dev_A/service1/char1".to_string()).unwrap(),
        strings(&["/org/bluez/hci0/dev_A/service1/char1/desc1"])
    );
    assert_eq!(
        list_item(&fake, "org.bluez.GattService1", "/org/bluez/hci0/dev_C", "Device").unwrap(),
        strings(&["/org/bluez/hci0/dev_C/service1"])
    );
    assert_eq!(get_managed_objects(&fake).unwrap(), house());
}

#[test]
fn handles_list_their_children() {
    let fake = Fake::holding(house());
    let adapter = BluetoothAdapter::new("/org/bluez/hci0".to_string());
    assert_eq!(
        adapter.get_device_list(&fake).unwrap(),
        strings(&["/org/bluez/hci0/dev_A", "/org/bluez/hci0/dev_C"])
    );
    assert_eq!(adapter.get_first_device(&fake).unwrap().get_id(), "/org/bluez/hci0/dev_A");
    let device = BluetoothDevice::new("/org/bluez/hci0/dev_A".to_string());
    assert_eq!(
        device.get_gatt_services(&fake).unwrap(),
        strings(&["/org/bluez/hci0/dev_A/service1", "/org/bluez/hci0/dev_A/service2"])
    );
    let service = BluetoothGATTService::new("/org/bluez/hci0/dev_A/service1".to_string());
    assert_eq!(
        service.get_gatt_characteristics(&fake).unwrap(),
        strings(&["/org/bluez/hci0/dev_A/service1/char1"])
    );
    let characteristic =
        BluetoothGATTCharacteristic::new("/org/bluez/hci0/dev_A/service1/char1".to_string());
    assert_eq!(
        characteristic.get_gatt_descriptors(&fake).unwrap(),
        strings(&["/org/bluez/hci0/dev_A/service1/char1/desc1"])
    );
}

#[test]
fn no_adapter_is_an_empty_list_and_not_a_failure() {
    let fake = Fake::holding(vec![device("/org/bluez/hci0/dev_A", "/org/bluez/hci0")]);
    assert_eq!(get_adapters(&fake).unwrap(), Vec::<String>::new());
    let empty = Fake::holding(vec![]);
    assert_eq!(get_adapters(&empty).unwrap(), Vec::<String>::new());
}

#[test]
fn init_turns_no_adapter_into_not_found() {
    let fake = Fake::holding(vec![device("/org/bluez/hci0/dev_A", "/org/bluez/hci0")]);
    let e = BluetoothAdapter::init(&fake).unwrap_err();
    assert_eq!(e.kind, ErrorKind::NotFound);
    assert_eq!(e.message, "Bluetooth adapter not found");
}

#[test]
fn init_takes_the_first_adapter() {
    let fake = Fake::holding(house());
    assert_eq!(get_adapters(&fake).unwrap(), strings(&["/org/bluez/hci0", "/org/bluez/hci1"]));
    assert_eq!(BluetoothAdapter::init(&fake).unwrap().get_id(), "/org/bluez/hci0");
}

#[test]
fn create_adapter_wants_a_listed_path() {
    let fake = Fake::holding(house());
    let found = BluetoothAdapter::create_adapter(&fake, "/org/bluez/hci1".to_string()).unwrap();
    assert_eq!(found.get_id(), "/org/bluez/hci1");
    let e = BluetoothAdapter::create_adapter(&fake, "/org/bluez/hci0/dev_A".to_string()).unwrap_err();
    assert_eq!(e.kind, ErrorKind::NotFound);
    assert_eq!(e.message, "Bluetooth adapter not found");
}

#[test]
fn first_device_of_an_adapter_without_devices_is_not_found() {
    let fake = Fake::holding(vec![adapter("/org/bluez/hci0")]);
    let adapter = BluetoothAdapter::new("/org/bluez/hci0".to_string());
    assert_eq!(adapter.get_device_list(&fake).unwrap(), Vec::<String>::new());
    let e = adapter.get_first_device(&fake).unwrap_err();
    assert_eq!(e.kind, ErrorKind::NotFound);
    assert_eq!(e.message, "No device found.");
}

#[test]
fn the_resolver_fails_on_transport_errors_only() {
    let e = get_adapters(&Unreachable).unwrap_err();
    assert_eq!(e.kind, ErrorKind::RemoteUnavailable);
    assert_eq!(e.message, "no bus");
    assert_eq!(
        list_devices(&Unreachable, &"/org/bluez/hci0".to_string()).unwrap_err().kind,
        ErrorKind::RemoteUnavailable
    );
    assert_eq!(BluetoothAdapter::init(&Unreachable).unwrap_err().kind, ErrorKind::RemoteUnavailable);
    assert_eq!(
        BluetoothAdapter::create_adapter(&Unreachable, "/a".to_string()).unwrap_err().kind,
        ErrorKind::RemoteUnavailable
    );
}

#[test]
fn an_enumeration_of_another_shape_is_a_type_mismatch() {
    let odd = Answering { reply: Value::text("nothing") };
    assert_eq!(get_adapters(&odd).unwrap_err().kind, ErrorKind::TypeMismatch);
    assert_eq!(get_managed_objects(&odd).unwrap_err().kind, ErrorKind::TypeMismatch);
}
