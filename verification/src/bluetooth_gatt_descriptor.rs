use vstd::prelude::*;
use crate::bluetooth_utils;
use crate::bluetooth_utils::{arguments, SERVICE_NAME};
use crate::errors::{content_of, Error};
use crate::marshal::{
    expect_bytes, expect_text, expect_texts, reads_bytes, reads_text, reads_texts,
};
use crate::transport::{
    call_request, read_request, send_for_value, yields_unit, yields_value, BusKind, Request,
    RequestView, Transport,
};
use crate::value::{byte_array, contents, offset_options, Value, ValueView};

verus! {

pub const GATT_DESCRIPTOR_INTERFACE: &'static str = "org.bluez.GattDescriptor1";

/// A handle on one GATT descriptor: the path of its remote object.
#[derive(Clone, Debug)]
pub struct BluetoothGATTDescriptor {
    object_path: String,
}

impl View for BluetoothGATTDescriptor {
    type V = Seq<char>;

    closed spec fn view(&self) -> Seq<char> {
        self.object_path@
    }
}

impl PartialEq for BluetoothGATTDescriptor {
    /// Two handles are equal when they hold the same path.
    fn eq(&self, other: &BluetoothGATTDescriptor) -> (same: bool) {
        self.object_path == other.object_path
    }
}

impl vstd::std_specs::cmp::PartialEqSpecImpl for BluetoothGATTDescriptor {
    open spec fn obeys_eq_spec() -> bool {
        true
    }

    open spec fn eq_spec(&self, other: &BluetoothGATTDescriptor) -> bool {
        self@ == other@
    }
}

impl BluetoothGATTDescriptor {
    /// The request that reads a property of the descriptor.
    pub open spec fn property(&self, name: Seq<char>) -> RequestView {
        read_request(
            BusKind::System,
            SERVICE_NAME@,
            self@,
            GATT_DESCRIPTOR_INTERFACE@,
            name,
        )
    }

    /// The request that invokes a method of the descriptor.
    pub open spec fn call(&self, method: Seq<char>, args: Seq<ValueView>) -> RequestView {
        call_request(
            BusKind::System,
            SERVICE_NAME@,
            self@,
            GATT_DESCRIPTOR_INTERFACE@,
            method,
            args,
        )
    }

    pub fn new(object_path: String) -> (d: BluetoothGATTDescriptor)
        ensures
            d@ == object_path@,
    {
        BluetoothGATTDescriptor { object_path: object_path }
    }

    pub fn get_id(&self) -> (id: String)
        ensures
            id@ == self@,
    {
        self.object_path.clone()
    }

    fn get_property<T: Transport>(&self, bus: &T, prop: &str) -> (r: Result<Value, Error>)
        ensures
            yields_value(bus, self.property(prop@), content_of(r)),
    {
        bluetooth_utils::get_property(
            bus,
            GATT_DESCRIPTOR_INTERFACE,
            self.object_path.as_str(),
            prop,
        )
    }

    fn call_method<T: Transport>(&self, bus: &T, method: &str, param: Option<Vec<Value>>) -> (r:
        Result<(), Error>)
        ensures
            yields_unit(bus, self.call(method@, arguments(param.deep_view())), content_of(r)),
    {
        bluetooth_utils::call_method(
            bus,
            GATT_DESCRIPTOR_INTERFACE,
            self.object_path.as_str(),
            method,
            param,
        )
    }

    pub fn get_uuid<T: Transport>(&self, bus: &T) -> (r: Result<String, Error>)
        ensures
            reads_text(bus, self.property("UUID"@), content_of(r)),
    {
        expect_text(self.get_property(bus, "UUID"))
    }

    /// The path of the characteristic that owns the descriptor.
    pub fn get_characteristic<T: Transport>(&self, bus: &T) -> (r: Result<String, Error>)
        ensures
            reads_text(bus, self.property("Characteristic"@), content_of(r)),
    {
        expect_text(self.get_property(bus, "Characteristic"))
    }

    /// The value as the daemon last saw it.
    pub fn get_value<T: Transport>(&self, bus: &T) -> (r: Result<Vec<u8>, Error>)
        ensures
            reads_bytes(bus, self.property("Value"@), content_of(r)),
    {
        expect_bytes(self.get_property(bus, "Value"))
    }

    pub fn get_flags<T: Transport>(&self, bus: &T) -> (r: Result<Vec<String>, Error>)
        ensures
            reads_texts(bus, self.property("Flags"@), content_of(r)),
    {
        expect_texts(self.get_property(bus, "Flags"))
    }

    /// Reads the value from the remote device, from the offset where one is
    /// given.
    pub fn read_value<T: Transport>(&self, bus: &T, offset: Option<u16>) -> (r: Result<
        Vec<u8>,
        Error,
    >)
        ensures
            reads_bytes(bus, self.call("ReadValue"@, seq![offset_options(offset)]), content_of(r)),
    {
        let mut args: Vec<Value> = Vec::new();
        args.push(Value::offset_options(offset));
        assert(contents(args@) =~= seq![offset_options(offset)]);
        let m = Request::call(
            BusKind::System,
            SERVICE_NAME,
            self.object_path.as_str(),
            GATT_DESCRIPTOR_INTERFACE,
            "ReadValue",
            args,
        );
        let reply = send_for_value(bus, &m);
        expect_bytes(reply)
    }

    /// Writes the value to the remote device, at the offset where one is
    /// given.
    pub fn write_value<T: Transport>(&self, bus: &T, values: Vec<u8>, offset: Option<u16>) -> (r:
        Result<(), Error>)
        ensures
            yields_unit(
                bus,
                self.call("WriteValue"@, seq![byte_array(values@), offset_options(offset)]),
                content_of(r),
            ),
    {
        let mut args: Vec<Value> = Vec::new();
        args.push(Value::bytes(&values));
        args.push(Value::offset_options(offset));
        assert(args.deep_view() =~= seq![byte_array(values@), offset_options(offset)]);
        self.call_method(bus, "WriteValue", Some(args))
    }
}

} // verus!
