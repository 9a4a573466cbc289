use std::collections::HashMap;
use vstd::prelude::*;
use crate::bluetooth_utils;
use crate::bluetooth_utils::{
    arguments, children_in, enumerated, DEVICE_INTERFACE, SERVICE_INTERFACE, SERVICE_NAME,
};
use crate::errors::{content_of, Error, ErrorView};
use crate::keyed_bytes::{
    collected, expect_labelled_bytes, expect_numbered_bytes, held, labelled_in, numbered_in,
};
use crate::marshal::{
    expect_bool, expect_i16, expect_text, expect_texts, expect_u16, expect_u32, reads_bool,
    reads_i16, reads_text, reads_texts, reads_u16, reads_u32,
};
use crate::modalias::{modalias_in, parse_modalias};
use crate::objects::RemoteObjectView;
use crate::transport::{
    call_request, read_request, write_request, yields_unit, yields_value, BusKind, RequestView,
    Transport,
};
use crate::value::{Value, ValueView};

verus! {



/// A handle on one remote device: the path of its remote object.
#[derive(Clone, Debug)]
pub struct BluetoothDevice {
    object_path: String,
}

impl View for BluetoothDevice {
    type V = Seq<char>;

    closed spec fn view(&self) -> Seq<char> {
        self.object_path@
    }
}

impl DeepView for BluetoothDevice {
    type V = Seq<char>;

    open spec fn deep_view(&self) -> Seq<char> {
        self@
    }
}

impl PartialEq for BluetoothDevice {
    /// Two handles are equal when they hold the same path.
    fn eq(&self, other: &BluetoothDevice) -> (same: bool) {
        self.object_path == other.object_path
    }
}

impl vstd::std_specs::cmp::PartialEqSpecImpl for BluetoothDevice {
    open spec fn obeys_eq_spec() -> bool {
        true
    }

    open spec fn eq_spec(&self, other: &BluetoothDevice) -> bool {
        self@ == other@
    }
}

impl BluetoothDevice {
    /// The request that reads a property of the device.
    pub open spec fn property(&self, name: Seq<char>) -> RequestView {
        read_request(BusKind::System, SERVICE_NAME@, self@, DEVICE_INTERFACE@, name)
    }

    /// The request that writes a property of the device.
    pub open spec fn assignment(&self, name: Seq<char>, value: ValueView) -> RequestView {
        write_request(BusKind::System, SERVICE_NAME@, self@, DEVICE_INTERFACE@, name, value)
    }

    /// The request that invokes a method of the device.
    pub open spec fn call(&self, method: Seq<char>, args: Seq<ValueView>) -> RequestView {
        call_request(BusKind::System, SERVICE_NAME@, self@, DEVICE_INTERFACE@, method, args)
    }

    pub fn new(object_path: String) -> (d: BluetoothDevice)
        ensures
            d@ == object_path@,
    {
        BluetoothDevice { object_path: object_path }
    }

    pub fn get_id(&self) -> (id: String)
        ensures
            id@ == self@,
    {
        self.object_path.clone()
    }

    fn get_property<T: Transport>(&self, bus: &T, prop: &str) -> (r: Result<Value, Error>)
        ensures
            yields_value(bus, self.property(prop@), content_of(r)),
    {
        bluetooth_utils::get_property(bus, DEVICE_INTERFACE, self.object_path.as_str(), prop)
    }

    fn set_property<T: Transport>(&self, bus: &T, prop: &str, value: Value) -> (r: Result<
        (),
        Error,
    >)
        ensures
            yields_unit(bus, self.assignment(prop@, value@), content_of(r)),
    {
        bluetooth_utils::set_property(
            bus,
            DEVICE_INTERFACE,
            self.object_path.as_str(),
            prop,
            value,
        )
    }

    fn call_method<T: Transport>(&self, bus: &T, method: &str, param: Option<Vec<Value>>) -> (r:
        Result<(), Error>)
        ensures
            yields_unit(bus, self.call(method@, arguments(param.deep_view())), content_of(r)),
    {
        bluetooth_utils::call_method(
            bus,
            DEVICE_INTERFACE,
            self.object_path.as_str(),
            method,
            param,
        )
    }

    pub fn get_address<T: Transport>(&self, bus: &T) -> (r: Result<String, Error>)
        ensures
            reads_text(bus, self.property("Address"@), content_of(r)),
    {
        expect_text(self.get_property(bus, "Address"))
    }

    pub fn get_name<T: Transport>(&self, bus: &T) -> (r: Result<String, Error>)
        ensures
            reads_text(bus, self.property("Name"@), content_of(r)),
    {
        expect_text(self.get_property(bus, "Name"))
    }

    pub fn get_icon<T: Transport>(&self, bus: &T) -> (r: Result<String, Error>)
        ensures
            reads_text(bus, self.property("Icon"@), content_of(r)),
    {
        expect_text(self.get_property(bus, "Icon"))
    }

    pub fn get_class<T: Transport>(&self, bus: &T) -> (r: Result<u32, Error>)
        ensures
            reads_u32(bus, self.property("Class"@), content_of(r)),
    {
        expect_u32(self.get_property(bus, "Class"))
    }

    pub fn get_appearance<T: Transport>(&self, bus: &T) -> (r: Result<u16, Error>)
        ensures
            reads_u16(bus, self.property("Appearance"@), content_of(r)),
    {
        expect_u16(self.get_property(bus, "Appearance"))
    }

    pub fn get_uuids<T: Transport>(&self, bus: &T) -> (r: Result<Vec<String>, Error>)
        ensures
            reads_texts(bus, self.property("UUIDs"@), content_of(r)),
    {
        expect_texts(self.get_property(bus, "UUIDs"))
    }

    pub fn is_paired<T: Transport>(&self, bus: &T) -> (r: Result<bool, Error>)
        ensures
            reads_bool(bus, self.property("Paired"@), content_of(r)),
    {
        expect_bool(self.get_property(bus, "Paired"))
    }

    pub fn is_connected<T: Transport>(&self, bus: &T) -> (r: Result<bool, Error>)
        ensures
            reads_bool(bus, self.property("Connected"@), content_of(r)),
    {
        expect_bool(self.get_property(bus, "Connected"))
    }

    pub fn is_trusted<T: Transport>(&self, bus: &T) -> (r: Result<bool, Error>)
        ensures
            reads_bool(bus, self.property("Trusted"@), content_of(r)),
    {
        expect_bool(self.get_property(bus, "Trusted"))
    }

    pub fn is_blocked<T: Transport>(&self, bus: &T) -> (r: Result<bool, Error>)
        ensures
            reads_bool(bus, self.property("Blocked"@), content_of(r)),
    {
        expect_bool(self.get_property(bus, "Blocked"))
    }

    pub fn get_alias<T: Transport>(&self, bus: &T) -> (r: Result<String, Error>)
        ensures
            reads_text(bus, self.property("Alias"@), content_of(r)),
    {
        expect_text(self.get_property(bus, "Alias"))
    }

    pub fn set_alias<T: Transport>(&self, bus: &T, value: String) -> (r: Result<(), Error>)
        ensures
            yields_unit(bus, self.assignment("Alias"@, ValueView::Str(value@)), content_of(r)),
    {
        self.set_property(bus, "Alias", Value::Str(value))
    }

    /// The path of the adapter that owns the device.
    pub fn get_adapter<T: Transport>(&self, bus: &T) -> (r: Result<String, Error>)
        ensures
            reads_text(bus, self.property("Adapter"@), content_of(r)),
    {
        expect_text(self.get_property(bus, "Adapter"))
    }

    pub fn is_legacy_pairing<T: Transport>(&self, bus: &T) -> (r: Result<bool, Error>)
        ensures
            reads_bool(bus, self.property("LegacyPairing"@), content_of(r)),
    {
        expect_bool(self.get_property(bus, "LegacyPairing"))
    }

    /// The hardware identifier of the device: its source, vendor, product
    /// and device.
    pub fn get_modalias<T: Transport>(&self, bus: &T) -> (r: Result<(String, u32, u32, u32), Error>)
        ensures
            exists|answer: Result<ValueView, ErrorView>|
                yields_value(bus, self.property("Modalias"@), answer) && content_of(r)
                    == modalias_in(answer),
    {
        let modalias = self.get_property(bus, "Modalias");
        let r = match expect_text(modalias) {
            Ok(m) => parse_modalias(m.as_str()),
            Err(e) => Err(e),
        };
        assert(content_of(r) == modalias_in(content_of(modalias)));
        r
    }

    pub fn get_vendor_id_source<T: Transport>(&self, bus: &T) -> (r: Result<String, Error>)
        ensures
            exists|answer: Result<ValueView, ErrorView>|
                yields_value(bus, self.property("Modalias"@), answer) && content_of(r) == (
                match modalias_in(answer) {
                    Ok(ids) => Ok(ids.0),
                    Err(e) => Err(e),
                }),
    {
        match self.get_modalias(bus) {
            Ok((vendor_id_source, _, _, _)) => Ok(vendor_id_source),
            Err(e) => Err(e),
        }
    }

    pub fn get_vendor_id<T: Transport>(&self, bus: &T) -> (r: Result<u32, Error>)
        ensures
            exists|answer: Result<ValueView, ErrorView>|
                yields_value(bus, self.property("Modalias"@), answer) && content_of(r) == (
                match modalias_in(answer) {
                    Ok(ids) => Ok(ids.1),
                    Err(e) => Err(e),
                }),
    {
        match self.get_modalias(bus) {
            Ok((_, vendor_id, _, _)) => Ok(vendor_id),
            Err(e) => Err(e),
        }
    }

    pub fn get_product_id<T: Transport>(&self, bus: &T) -> (r: Result<u32, Error>)
        ensures
            exists|answer: Result<ValueView, ErrorView>|
                yields_value(bus, self.property("Modalias"@), answer) && content_of(r) == (
                match modalias_in(answer) {
                    Ok(ids) => Ok(ids.2),
                    Err(e) => Err(e),
                }),
    {
        match self.get_modalias(bus) {
            Ok((_, _, product_id, _)) => Ok(product_id),
            Err(e) => Err(e),
        }
    }

    pub fn get_device_id<T: Transport>(&self, bus: &T) -> (r: Result<u32, Error>)
        ensures
            exists|answer: Result<ValueView, ErrorView>|
                yields_value(bus, self.property("Modalias"@), answer) && content_of(r) == (
                match modalias_in(answer) {
                    Ok(ids) => Ok(ids.3),
                    Err(e) => Err(e),
                }),
    {
        match self.get_modalias(bus) {
            Ok((_, _, _, device_id)) => Ok(device_id),
            Err(e) => Err(e),
        }
    }

    pub fn get_rssi<T: Transport>(&self, bus: &T) -> (r: Result<i16, Error>)
        ensures
            reads_i16(bus, self.property("RSSI"@), content_of(r)),
    {
        expect_i16(self.get_property(bus, "RSSI"))
    }

    pub fn get_tx_power<T: Transport>(&self, bus: &T) -> (r: Result<i16, Error>)
        ensures
            reads_i16(bus, self.property("TxPower"@), content_of(r)),
    {
        expect_i16(self.get_property(bus, "TxPower"))
    }

    /// The data that the manufacturer advertises, by company number. Where
    /// a number occurs more than once, its last entry stands.
    pub fn get_manufacturer_data<T: Transport>(&self, bus: &T) -> (r: Result<
        HashMap<u16, Vec<u8>>,
        Error,
    >)
        ensures
            exists|answer: Result<ValueView, ErrorView>|
                yields_value(bus, self.property("ManufacturerData"@), answer) && (
                match numbered_in(answer) {
                    Ok(entries) => r is Ok && held(r->Ok_0@) == collected(entries),
                    Err(e) => r is Err && r->Err_0@ == e,
                }),
    {
        let manufacturer_data_array = self.get_property(bus, "ManufacturerData");
        let ghost answer = content_of(manufacturer_data_array);
        let r = expect_numbered_bytes(manufacturer_data_array);
        assert(yields_value(bus, self.property("ManufacturerData"@), answer));
        r
    }

    /// The data that the services advertise, by service UUID, each UUID
    /// once.
    pub fn get_service_data<T: Transport>(&self, bus: &T) -> (r: Result<
        Vec<(String, Vec<u8>)>,
        Error,
    >)
        ensures
            exists|answer: Result<ValueView, ErrorView>|
                yields_value(bus, self.property("ServiceData"@), answer) && content_of(r)
                    == labelled_in(answer),
    {
        let service_data_array = self.get_property(bus, "ServiceData");
        let ghost answer = content_of(service_data_array);
        let r = expect_labelled_bytes(service_data_array);
        assert(yields_value(bus, self.property("ServiceData"@), answer));
        r
    }

    /// The paths of the GATT services that the device owns.
    pub fn get_gatt_services<T: Transport>(&self, bus: &T) -> (r: Result<Vec<String>, Error>)
        ensures
            exists|objects: Result<Seq<RemoteObjectView>, ErrorView>|
                enumerated(bus, objects) && content_of(r) == children_in(
                    objects,
                    SERVICE_INTERFACE@,
                    "Device"@,
                    self@,
                ),
    {
        bluetooth_utils::list_services(bus, &self.object_path)
    }

    pub fn connect<T: Transport>(&self, bus: &T) -> (r: Result<(), Error>)
        ensures
            yields_unit(bus, self.call("Connect"@, Seq::empty()), content_of(r)),
    {
        self.call_method(bus, "Connect", None)
    }

    pub fn disconnect<T: Transport>(&self, bus: &T) -> (r: Result<(), Error>)
        ensures
            yields_unit(bus, self.call("Disconnect"@, Seq::empty()), content_of(r)),
    {
        self.call_method(bus, "Disconnect", None)
    }

    pub fn connect_profile<T: Transport>(&self, bus: &T, uuid: String) -> (r: Result<(), Error>)
        ensures
            yields_unit(
                bus,
                self.call("ConnectProfile"@, seq![ValueView::Str(uuid@)]),
                content_of(r),
            ),
    {
        let mut args: Vec<Value> = Vec::new();
        args.push(Value::Str(uuid));
        assert(args.deep_view() =~= seq![ValueView::Str(uuid@)]);
        self.call_method(bus, "ConnectProfile", Some(args))
    }

    pub fn disconnect_profile<T: Transport>(&self, bus: &T, uuid: String) -> (r: Result<(), Error>)
        ensures
            yields_unit(
                bus,
                self.call("DisconnectProfile"@, seq![ValueView::Str(uuid@)]),
                content_of(r),
            ),
    {
        let mut args: Vec<Value> = Vec::new();
        args.push(Value::Str(uuid));
        assert(args.deep_view() =~= seq![ValueView::Str(uuid@)]);
        self.call_method(bus, "DisconnectProfile", Some(args))
    }

    pub fn pair<T: Transport>(&self, bus: &T) -> (r: Result<(), Error>)
        ensures
            yields_unit(bus, self.call("Pair"@, Seq::empty()), content_of(r)),
    {
        self.call_method(bus, "Pair", None)
    }

    pub fn cancel_pairing<T: Transport>(&self, bus: &T) -> (r: Result<(), Error>)
        ensures
            yields_unit(bus, self.call("CancelPairing"@, Seq::empty()), content_of(r)),
    {
        self.call_method(bus, "CancelPairing", None)
    }
}

} // verus!
