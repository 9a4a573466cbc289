use vstd::prelude::*;
use crate::bluetooth_utils;
use crate::bluetooth_utils::{arguments, children_in, enumerated, DESCRIPTOR_INTERFACE, SERVICE_NAME};
use crate::errors::{content_of, Error, ErrorView};
use crate::marshal::{
    expect_bool, expect_bytes, expect_text, expect_texts, reads_bool, reads_bytes, reads_text,
    reads_texts,
};
use crate::objects::RemoteObjectView;
use crate::transport::{
    call_request, read_request, send_for_value, yields_unit, yields_value, BusKind, Request,
    RequestView, Transport,
};
use crate::value::{byte_array, contents, offset_options, Value, ValueView};

verus! {

pub const GATT_CHARACTERISTIC_INTERFACE: &'static str = "org.bluez.GattCharacteristic1";

/// A handle on one GATT characteristic: the path of its remote object.
#[derive(Clone, Debug)]
pub struct BluetoothGATTCharacteristic {
    object_path: String,
}

impl View for BluetoothGATTCharacteristic {
    type V = Seq<char>;

    closed spec fn view(&self) -> Seq<char> {
        self.object_path@
    }
}

impl PartialEq for BluetoothGATTCharacteristic {
    /// Two handles are equal when they hold the same path.
    fn eq(&self, other: &BluetoothGATTCharacteristic) -> (same: bool) {
        self.object_path == other.object_path
    }
}

impl vstd::std_specs::cmp::PartialEqSpecImpl for BluetoothGATTCharacteristic {
    open spec fn obeys_eq_spec() -> bool {
        true
    }

    open spec fn eq_spec(&self, other: &BluetoothGATTCharacteristic) -> bool {
        self@ == other@
    }
}

impl BluetoothGATTCharacteristic {
    /// The request that reads a property of the characteristic.
    pub open spec fn property(&self, name: Seq<char>) -> RequestView {
        read_request(
            BusKind::System,
            SERVICE_NAME@,
            self@,
            GATT_CHARACTERISTIC_INTERFACE@,
            name,
        )
    }

    /// The request that invokes a method of the characteristic.
    pub open spec fn call(&self, method: Seq<char>, args: Seq<ValueView>) -> RequestView {
        call_request(
            BusKind::System,
            SERVICE_NAME@,
            self@,
            GATT_CHARACTERISTIC_INTERFACE@,
            method,
            args,
        )
    }

    pub fn new(object_path: String) -> (c: BluetoothGATTCharacteristic)
        ensures
            c@ == object_path@,
    {
        BluetoothGATTCharacteristic { object_path: object_path }
    }

    pub fn get_id(&self) -> (id: String)
        ensures
            id@ == self@,
    {
        self.object_path.clone()
    }

    fn get_property<T: Transport>(&self, bus: &T, prop: &str) -> (r: Result<Value, Error>)
        ensures
            yields_value(bus, self.property(prop@), content_of(r)),
    {
        bluetooth_utils::get_property(
            bus,
            GATT_CHARACTERISTIC_INTERFACE,
            self.object_path.as_str(),
            prop,
        )
    }

    fn call_method<T: Transport>(&self, bus: &T, method: &str, param: Option<Vec<Value>>) -> (r:
        Result<(), Error>)
        ensures
            yields_unit(bus, self.call(method@, arguments(param.deep_view())), content_of(r)),
    {
        bluetooth_utils::call_method(
            bus,
            GATT_CHARACTERISTIC_INTERFACE,
            self.object_path.as_str(),
            method,
            param,
        )
    }

    pub fn get_uuid<T: Transport>(&self, bus: &T) -> (r: Result<String, Error>)
        ensures
            reads_text(bus, self.property("UUID"@), content_of(r)),
    {
        expect_text(self.get_property(bus, "UUID"))
    }

    /// The path of the service that owns the characteristic.
    pub fn get_service<T: Transport>(&self, bus: &T) -> (r: Result<String, Error>)
        ensures
            reads_text(bus, self.property("Service"@), content_of(r)),
    {
        expect_text(self.get_property(bus, "Service"))
    }

    /// The value as the daemon last saw it.
    pub fn get_value<T: Transport>(&self, bus: &T) -> (r: Result<Vec<u8>, Error>)
        ensures
            reads_bytes(bus, self.property("Value"@), content_of(r)),
    {
        expect_bytes(self.get_property(bus, "Value"))
    }

    pub fn is_notifying<T: Transport>(&self, bus: &T) -> (r: Result<bool, Error>)
        ensures
            reads_bool(bus, self.property("Notifying"@), content_of(r)),
    {
        expect_bool(self.get_property(bus, "Notifying"))
    }

    pub fn get_flags<T: Transport>(&self, bus: &T) -> (r: Result<Vec<String>, Error>)
        ensures
            reads_texts(bus, self.property("Flags"@), content_of(r)),
    {
        expect_texts(self.get_property(bus, "Flags"))
    }

    /// The paths of the descriptors that the characteristic owns.
    pub fn get_gatt_descriptors<T: Transport>(&self, bus: &T) -> (r: Result<Vec<String>, Error>)
        ensures
            exists|objects: Result<Seq<RemoteObjectView>, ErrorView>|
                enumerated(bus, objects) && content_of(r) == children_in(
                    objects,
                    DESCRIPTOR_INTERFACE@,
                    "Characteristic"@,
                    self@,
                ),
    {
        bluetooth_utils::list_descriptors(bus, &self.object_path)
    }

    /// Reads the value from the remote device, from the offset where one is
    /// given.
    pub fn read_value<T: Transport>(&self, bus: &T, offset: Option<u16>) -> (r: Result<
        Vec<u8>,
        Error,
    >)
        ensures
            reads_bytes(bus, self.call("ReadValue"@, seq![offset_options(offset)]), content_of(r)),
    {
        let mut args: Vec<Value> = Vec::new();
        args.push(Value::offset_options(offset));
        assert(contents(args@) =~= seq![offset_options(offset)]);
        let m = Request::call(
            BusKind::System,
            SERVICE_NAME,
            self.object_path.as_str(),
            GATT_CHARACTERISTIC_INTERFACE,
            "ReadValue",
            args,
        );
        let reply = send_for_value(bus, &m);
        expect_bytes(reply)
    }

    /// Writes the value to the remote device, at the offset where one is
    /// given.
    pub fn write_value<T: Transport>(&self, bus: &T, values: Vec<u8>, offset: Option<u16>) -> (r:
        Result<(), Error>)
        ensures
            yields_unit(
                bus,
                self.call("WriteValue"@, seq![byte_array(values@), offset_options(offset)]),
                content_of(r),
            ),
    {
        let mut args: Vec<Value> = Vec::new();
        args.push(Value::bytes(&values));
        args.push(Value::offset_options(offset));
        assert(args.deep_view() =~= seq![byte_array(values@), offset_options(offset)]);
        self.call_method(bus, "WriteValue", Some(args))
    }

    pub fn start_notify<T: Transport>(&self, bus: &T) -> (r: Result<(), Error>)
        ensures
            yields_unit(bus, self.call("StartNotify"@, Seq::empty()), content_of(r)),
    {
        self.call_method(bus, "StartNotify", None)
    }

    pub fn stop_notify<T: Transport>(&self, bus: &T) -> (r: Result<(), Error>)
        ensures
            yields_unit(bus, self.call("StopNotify"@, Seq::empty()), content_of(r)),
    {
        self.call_method(bus, "StopNotify", None)
    }
}

} // verus!
