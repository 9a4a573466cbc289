use vstd::prelude::*;
use crate::bluetooth_utils;
use crate::bluetooth_utils::{children_in, enumerated, CHARACTERISTIC_INTERFACE, SERVICE_NAME};
use crate::errors::{content_of, failure, Error, ErrorKind, ErrorView};
use crate::marshal::{expect_bool, expect_text, reads_bool, reads_text};
use crate::objects::RemoteObjectView;
use crate::transport::{read_request, yields_value, BusKind, RequestView, Transport};
use crate::value::Value;

verus! {

pub const GATT_SERVICE_INTERFACE: &'static str = "org.bluez.GattService1";

/// A handle on one GATT service: the path of its remote object.
#[derive(Clone, Debug)]
pub struct BluetoothGATTService {
    object_path: String,
}

impl View for BluetoothGATTService {
    type V = Seq<char>;

    closed spec fn view(&self) -> Seq<char> {
        self.object_path@
    }
}

impl PartialEq for BluetoothGATTService {
    /// Two handles are equal when they hold the same path.
    fn eq(&self, other: &BluetoothGATTService) -> (same: bool) {
        self.object_path == other.object_path
    }
}

impl vstd::std_specs::cmp::PartialEqSpecImpl for BluetoothGATTService {
    open spec fn obeys_eq_spec() -> bool {
        true
    }

    open spec fn eq_spec(&self, other: &BluetoothGATTService) -> bool {
        self@ == other@
    }
}

impl BluetoothGATTService {
    /// The request that reads a property of the service.
    pub open spec fn property(&self, name: Seq<char>) -> RequestView {
        read_request(BusKind::System, SERVICE_NAME@, self@, GATT_SERVICE_INTERFACE@, name)
    }

    pub fn new(object_path: String) -> (s: BluetoothGATTService)
        ensures
            s@ == object_path@,
    {
        BluetoothGATTService { object_path: object_path }
    }

    pub fn get_id(&self) -> (id: String)
        ensures
            id@ == self@,
    {
        self.object_path.clone()
    }

    fn get_property<T: Transport>(&self, bus: &T, prop: &str) -> (r: Result<Value, Error>)
        ensures
            yields_value(bus, self.property(prop@), content_of(r)),
    {
        bluetooth_utils::get_property(bus, GATT_SERVICE_INTERFACE, self.object_path.as_str(), prop)
    }

    pub fn get_uuid<T: Transport>(&self, bus: &T) -> (r: Result<String, Error>)
        ensures
            reads_text(bus, self.property("UUID"@), content_of(r)),
    {
        expect_text(self.get_property(bus, "UUID"))
    }

    pub fn is_primary<T: Transport>(&self, bus: &T) -> (r: Result<bool, Error>)
        ensures
            reads_bool(bus, self.property("Primary"@), content_of(r)),
    {
        expect_bool(self.get_property(bus, "Primary"))
    }

    /// The path of the device that owns the service.
    pub fn get_device<T: Transport>(&self, bus: &T) -> (r: Result<String, Error>)
        ensures
            reads_text(bus, self.property("Device"@), content_of(r)),
    {
        expect_text(self.get_property(bus, "Device"))
    }

    /// The included services are not offered: this always fails, and sends
    /// nothing.
    pub fn get_includes(&self) -> (r: Result<Vec<String>, Error>)
        ensures
            content_of(r) == Err::<Seq<Seq<char>>, ErrorView>(
                failure(ErrorKind::NoSuchMethod, "Not implemented"@),
            ),
    {
        Err(Error::new(ErrorKind::NoSuchMethod, "Not implemented"))
    }

    /// The paths of the characteristics that the service owns.
    pub fn get_gatt_characteristics<T: Transport>(&self, bus: &T) -> (r: Result<
        Vec<String>,
        Error,
    >)
        ensures
            exists|objects: Result<Seq<RemoteObjectView>, ErrorView>|
                enumerated(bus, objects) && content_of(r) == children_in(
                    objects,
                    CHARACTERISTIC_INTERFACE@,
                    "Service"@,
                    self@,
                ),
    {
        bluetooth_utils::list_characteristics(bus, &self.object_path)
    }
}

} // verus!
