use vstd::prelude::*;
use crate::bluetooth_device::BluetoothDevice;
use crate::bluetooth_utils;
use crate::bluetooth_utils::{
    arguments, children_in, enumerated, kind_in, ADAPTER_INTERFACE, DEVICE_INTERFACE, SERVICE_NAME,
};
use crate::errors::{content_of, failure, Error, ErrorKind, ErrorView};
use crate::marshal::{
    expect_bool, expect_text, expect_texts, expect_u32, reads_bool, reads_text, reads_texts,
    reads_u32,
};
use crate::modalias::{modalias_in, parse_modalias};
use crate::objects::{implements, none_of_the_kind_is_empty, RemoteObjectView};
use crate::text::lists;
use crate::transport::{
    call_request, read_request, write_request, yields_unit, yields_value, BusKind, RequestView,
    Transport,
};
use crate::value::{Value, ValueView};

verus! {

/// A handle on one local adapter: the path of its remote object.
#[derive(Clone, Debug)]
pub struct BluetoothAdapter {
    object_path: String,
}

impl View for BluetoothAdapter {
    type V = Seq<char>;

    closed spec fn view(&self) -> Seq<char> {
        self.object_path@
    }
}

impl DeepView for BluetoothAdapter {
    type V = Seq<char>;

    open spec fn deep_view(&self) -> Seq<char> {
        self@
    }
}

/// The first of the listed paths; an empty list is a failure to find, with
/// the given message, and a failure stays what it is.
pub open spec fn first_or_not_found(
    listed: Result<Seq<Seq<char>>, ErrorView>,
    message: Seq<char>,
) -> Result<Seq<char>, ErrorView> {
    match listed {
        Ok(paths) => if paths.len() == 0 {
            Err(failure(ErrorKind::NotFound, message))
        } else {
            Ok(paths[0])
        },
        Err(e) => Err(e),
    }
}

/// The wanted path where it is among those listed; where it is not, a
/// failure to find, with the given message; a failure stays what it is.
pub open spec fn listed_or_not_found(
    listed: Result<Seq<Seq<char>>, ErrorView>,
    wanted: Seq<char>,
    message: Seq<char>,
) -> Result<Seq<char>, ErrorView> {
    match listed {
        Ok(paths) => if paths.contains(wanted) {
            Ok(wanted)
        } else {
            Err(failure(ErrorKind::NotFound, message))
        },
        Err(e) => Err(e),
    }
}

/// Where no object implements the adapter interface, the list of adapters is
/// empty and no failure, and the first adapter is not found.
pub proof fn no_adapter_is_not_found(objects: Seq<RemoteObjectView>)
    requires
        forall|i: int|
            0 <= i < objects.len() ==> !implements(#[trigger] objects[i], ADAPTER_INTERFACE@),
    ensures
        kind_in(Ok(objects), ADAPTER_INTERFACE@) == Ok::<Seq<Seq<char>>, ErrorView>(Seq::empty()),
        first_or_not_found(kind_in(Ok(objects), ADAPTER_INTERFACE@), "Bluetooth adapter not found"@)
            == Err::<Seq<char>, ErrorView>(
            failure(ErrorKind::NotFound, "Bluetooth adapter not found"@),
        ),
{
    none_of_the_kind_is_empty(objects, ADAPTER_INTERFACE@);
}

impl PartialEq for BluetoothAdapter {
    /// Two handles are equal when they hold the same path.
    fn eq(&self, other: &BluetoothAdapter) -> (same: bool) {
        self.object_path == other.object_path
    }
}

impl vstd::std_specs::cmp::PartialEqSpecImpl for BluetoothAdapter {
    open spec fn obeys_eq_spec() -> bool {
        true
    }

    open spec fn eq_spec(&self, other: &BluetoothAdapter) -> bool {
        self@ == other@
    }
}

impl BluetoothAdapter {
    /// The request that reads a property of the adapter.
    pub open spec fn property(&self, name: Seq<char>) -> RequestView {
        read_request(BusKind::System, SERVICE_NAME@, self@, ADAPTER_INTERFACE@, name)
    }

    /// The request that writes a property of the adapter.
    pub open spec fn assignment(&self, name: Seq<char>, value: ValueView) -> RequestView {
        write_request(BusKind::System, SERVICE_NAME@, self@, ADAPTER_INTERFACE@, name, value)
    }

    /// The request that invokes a method of the adapter.
    pub open spec fn call(&self, method: Seq<char>, args: Seq<ValueView>) -> RequestView {
        call_request(BusKind::System, SERVICE_NAME@, self@, ADAPTER_INTERFACE@, method, args)
    }

    pub fn new(object_path: String) -> (a: BluetoothAdapter)
        ensures
            a@ == object_path@,
    {
        BluetoothAdapter { object_path: object_path }
    }

    /// The first adapter that the daemon lists. Where it lists none, the
    /// adapter is not found.
    pub fn init<T: Transport>(bus: &T) -> (r: Result<BluetoothAdapter, Error>)
        ensures
            exists|objects: Result<Seq<RemoteObjectView>, ErrorView>|
                enumerated(bus, objects) && content_of(r) == first_or_not_found(
                    kind_in(objects, ADAPTER_INTERFACE@),
                    "Bluetooth adapter not found"@,
                ),
    {
        let adapters = bluetooth_utils::get_adapters(bus);
        let r = match adapters {
            Ok(adapters) => {
                if adapters.len() == 0 {
                    Err(Error::new(ErrorKind::NotFound, "Bluetooth adapter not found"))
                } else {
                    Ok(BluetoothAdapter::new(adapters[0].clone()))
                }
            },
            Err(e) => Err(e),
        };
        assert(content_of(r) == first_or_not_found(
            content_of(adapters),
            "Bluetooth adapter not found"@,
        ));
        r
    }

    /// The adapter of the given path, where the daemon lists it. Where it
    /// does not, the adapter is not found.
    pub fn create_adapter<T: Transport>(bus: &T, object_path: String) -> (r: Result<
        BluetoothAdapter,
        Error,
    >)
        ensures
            exists|objects: Result<Seq<RemoteObjectView>, ErrorView>|
                enumerated(bus, objects) && content_of(r) == listed_or_not_found(
                    kind_in(objects, ADAPTER_INTERFACE@),
                    object_path@,
                    "Bluetooth adapter not found"@,
                ),
    {
        let adapters = bluetooth_utils::get_adapters(bus);
        let ghost wanted = object_path@;
        let r = match adapters {
            Ok(adapters) => {
                if lists(&adapters, object_path.as_str()) {
                    Ok(BluetoothAdapter::new(object_path))
                } else {
                    Err(Error::new(ErrorKind::NotFound, "Bluetooth adapter not found"))
                }
            },
            Err(e) => Err(e),
        };
        assert(content_of(r) == listed_or_not_found(
            content_of(adapters),
            wanted,
            "Bluetooth adapter not found"@,
        ));
        r
    }

    pub fn get_id(&self) -> (id: String)
        ensures
            id@ == self@,
    {
        self.object_path.clone()
    }

    /// The first device that the adapter owns. Where it owns none, the
    /// device is not found.
    pub fn get_first_device<T: Transport>(&self, bus: &T) -> (r: Result<BluetoothDevice, Error>)
        ensures
            exists|objects: Result<Seq<RemoteObjectView>, ErrorView>|
                enumerated(bus, objects) && content_of(r) == first_or_not_found(
                    children_in(objects, DEVICE_INTERFACE@, "Adapter"@, self@),
                    "No device found."@,
                ),
    {
        let devices = bluetooth_utils::list_devices(bus, &self.object_path);
        let r = match devices {
            Ok(devices) => {
                if devices.len() == 0 {
                    Err(Error::new(ErrorKind::NotFound, "No device found."))
                } else {
                    Ok(BluetoothDevice::new(devices[0].clone()))
                }
            },
            Err(e) => Err(e),
        };
        assert(content_of(r) == first_or_not_found(content_of(devices), "No device found."@));
        r
    }

    /// The paths of the devices that the adapter owns.
    pub fn get_device_list<T: Transport>(&self, bus: &T) -> (r: Result<Vec<String>, Error>)
        ensures
            exists|objects: Result<Seq<RemoteObjectView>, ErrorView>|
                enumerated(bus, objects) && content_of(r) == children_in(
                    objects,
                    DEVICE_INTERFACE@,
                    "Adapter"@,
                    self@,
                ),
    {
        bluetooth_utils::list_devices(bus, &self.object_path)
    }

    fn get_property<T: Transport>(&self, bus: &T, prop: &str) -> (r: Result<Value, Error>)
        ensures
            yields_value(bus, self.property(prop@), content_of(r)),
    {
        bluetooth_utils::get_property(bus, ADAPTER_INTERFACE, self.object_path.as_str(), prop)
    }

    fn set_property<T: Transport>(&self, bus: &T, prop: &str, value: Value) -> (r: Result<
        (),
        Error,
    >)
        ensures
            yields_unit(bus, self.assignment(prop@, value@), content_of(r)),
    {
        bluetooth_utils::set_property(
            bus,
            ADAPTER_INTERFACE,
            self.object_path.as_str(),
            prop,
            value,
        )
    }

    fn call_method<T: Transport>(&self, bus: &T, method: &str, param: Option<Vec<Value>>) -> (r:
        Result<(), Error>)
        ensures
            yields_unit(bus, self.call(method@, arguments(param.deep_view())), content_of(r)),
    {
        bluetooth_utils::call_method(
            bus,
            ADAPTER_INTERFACE,
            self.object_path.as_str(),
            method,
            param,
        )
    }

    pub fn get_address<T: Transport>(&self, bus: &T) -> (r: Result<String, Error>)
        ensures
            reads_text(bus, self.property("Address"@), content_of(r)),
    {
        expect_text(self.get_property(bus, "Address"))
    }

    pub fn get_name<T: Transport>(&self, bus: &T) -> (r: Result<String, Error>)
        ensures
            reads_text(bus, self.property("Name"@), content_of(r)),
    {
        expect_text(self.get_property(bus, "Name"))
    }

    pub fn get_alias<T: Transport>(&self, bus: &T) -> (r: Result<String, Error>)
        ensures
            reads_text(bus, self.property("Alias"@), content_of(r)),
    {
        expect_text(self.get_property(bus, "Alias"))
    }

    pub fn set_alias<T: Transport>(&self, bus: &T, value: String) -> (r: Result<(), Error>)
        ensures
            yields_unit(bus, self.assignment("Alias"@, ValueView::Str(value@)), content_of(r)),
    {
        self.set_property(bus, "Alias", Value::Str(value))
    }

    pub fn get_class<T: Transport>(&self, bus: &T) -> (r: Result<u32, Error>)
        ensures
            reads_u32(bus, self.property("Class"@), content_of(r)),
    {
        expect_u32(self.get_property(bus, "Class"))
    }

    pub fn is_powered<T: Transport>(&self, bus: &T) -> (r: Result<bool, Error>)
        ensures
            reads_bool(bus, self.property("Powered"@), content_of(r)),
    {
        expect_bool(self.get_property(bus, "Powered"))
    }

    pub fn set_powered<T: Transport>(&self, bus: &T, value: bool) -> (r: Result<(), Error>)
        ensures
            yields_unit(bus, self.assignment("Powered"@, ValueView::Bool(value)), content_of(r)),
    {
        self.set_property(bus, "Powered", Value::Bool(value))
    }

    pub fn is_discoverable<T: Transport>(&self, bus: &T) -> (r: Result<bool, Error>)
        ensures
            reads_bool(bus, self.property("Discoverable"@), content_of(r)),
    {
        expect_bool(self.get_property(bus, "Discoverable"))
    }

    pub fn set_discoverable<T: Transport>(&self, bus: &T, value: bool) -> (r: Result<(), Error>)
        ensures
            yields_unit(bus, self.assignment("Discoverable"@, ValueView::Bool(value)), content_of(r)),
    {
        self.set_property(bus, "Discoverable", Value::Bool(value))
    }

    pub fn is_pairable<T: Transport>(&self, bus: &T) -> (r: Result<bool, Error>)
        ensures
            reads_bool(bus, self.property("Pairable"@), content_of(r)),
    {
        expect_bool(self.get_property(bus, "Pairable"))
    }

    pub fn set_pairable<T: Transport>(&self, bus: &T, value: bool) -> (r: Result<(), Error>)
        ensures
            yields_unit(bus, self.assignment("Pairable"@, ValueView::Bool(value)), content_of(r)),
    {
        self.set_property(bus, "Pairable", Value::Bool(value))
    }

    pub fn get_pairable_timeout<T: Transport>(&self, bus: &T) -> (r: Result<u32, Error>)
        ensures
            reads_u32(bus, self.property("PairableTimeout"@), content_of(r)),
    {
        expect_u32(self.get_property(bus, "PairableTimeout"))
    }

    pub fn set_pairable_timeout<T: Transport>(&self, bus: &T, value: u32) -> (r: Result<(), Error>)
        ensures
            yields_unit(bus, self.assignment("PairableTimeout"@, ValueView::UInt32(value)), content_of(r)),
    {
        self.set_property(bus, "PairableTimeout", Value::UInt32(value))
    }

    pub fn get_discoverable_timeout<T: Transport>(&self, bus: &T) -> (r: Result<u32, Error>)
        ensures
            reads_u32(bus, self.property("DiscoverableTimeout"@), content_of(r)),
    {
        expect_u32(self.get_property(bus, "DiscoverableTimeout"))
    }

    pub fn set_discoverable_timeout<T: Transport>(&self, bus: &T, value: u32) -> (r: Result<(), Error>)
        ensures
            yields_unit(bus, self.assignment("DiscoverableTimeout"@, ValueView::UInt32(value)), content_of(r)),
    {
        self.set_property(bus, "DiscoverableTimeout", Value::UInt32(value))
    }

    pub fn is_discovering<T: Transport>(&self, bus: &T) -> (r: Result<bool, Error>)
        ensures
            reads_bool(bus, self.property("Discovering"@), content_of(r)),
    {
        expect_bool(self.get_property(bus, "Discovering"))
    }

    pub fn get_uuids<T: Transport>(&self, bus: &T) -> (r: Result<Vec<String>, Error>)
        ensures
            reads_texts(bus, self.property("UUIDs"@), content_of(r)),
    {
        expect_texts(self.get_property(bus, "UUIDs"))
    }

    /// The hardware identifier of the adapter: its source, vendor, product
    /// and device.
    pub fn get_modalias<T: Transport>(&self, bus: &T) -> (r: Result<(String, u32, u32, u32), Error>)
        ensures
            exists|answer: Result<ValueView, ErrorView>|
                yields_value(bus, self.property("Modalias"@), answer) && content_of(r)
                    == modalias_in(answer),
    {
        let modalias = self.get_property(bus, "Modalias");
        let r = match expect_text(modalias) {
            Ok(m) => parse_modalias(m.as_str()),
            Err(e) => Err(e),
        };
        assert(content_of(r) == modalias_in(content_of(modalias)));
        r
    }

    pub fn get_vendor_id_source<T: Transport>(&self, bus: &T) -> (r: Result<String, Error>)
        ensures
            exists|answer: Result<ValueView, ErrorView>|
                yields_value(bus, self.property("Modalias"@), answer) && content_of(r) == (
                match modalias_in(answer) {
                    Ok(ids) => Ok(ids.0),
                    Err(e) => Err(e),
                }),
    {
        match self.get_modalias(bus) {
            Ok((vendor_id_source, _, _, _)) => Ok(vendor_id_source),
            Err(e) => Err(e),
        }
    }

    pub fn get_vendor_id<T: Transport>(&self, bus: &T) -> (r: Result<u32, Error>)
        ensures
            exists|answer: Result<ValueView, ErrorView>|
                yields_value(bus, self.property("Modalias"@), answer) && content_of(r) == (
                match modalias_in(answer) {
                    Ok(ids) => Ok(ids.1),
                    Err(e) => Err(e),
                }),
    {
        match self.get_modalias(bus) {
            Ok((_, vendor_id, _, _)) => Ok(vendor_id),
            Err(e) => Err(e),
        }
    }

    pub fn get_product_id<T: Transport>(&self, bus: &T) -> (r: Result<u32, Error>)
        ensures
            exists|answer: Result<ValueView, ErrorView>|
                yields_value(bus, self.property("Modalias"@), answer) && content_of(r) == (
                match modalias_in(answer) {
                    Ok(ids) => Ok(ids.2),
                    Err(e) => Err(e),
                }),
    {
        match self.get_modalias(bus) {
            Ok((_, _, product_id, _)) => Ok(product_id),
            Err(e) => Err(e),
        }
    }

    pub fn get_device_id<T: Transport>(&self, bus: &T) -> (r: Result<u32, Error>)
        ensures
            exists|answer: Result<ValueView, ErrorView>|
                yields_value(bus, self.property("Modalias"@), answer) && content_of(r) == (
                match modalias_in(answer) {
                    Ok(ids) => Ok(ids.3),
                    Err(e) => Err(e),
                }),
    {
        match self.get_modalias(bus) {
            Ok((_, _, _, device_id)) => Ok(device_id),
            Err(e) => Err(e),
        }
    }

    /// Discovery is started through a discovery session: this always fails,
    /// and sends nothing.
    pub fn start_discovery(&self) -> (r: Result<(), Error>)
        ensures
            content_of(r) == Err::<(), ErrorView>(
                failure(ErrorKind::NoSuchMethod, "Deprecated, use Discovery Session"@),
            ),
    {
        Err(Error::new(ErrorKind::NoSuchMethod, "Deprecated, use Discovery Session"))
    }

    /// Discovery is stopped through a discovery session: this always fails,
    /// and sends nothing.
    pub fn stop_discovery(&self) -> (r: Result<(), Error>)
        ensures
            content_of(r) == Err::<(), ErrorView>(
                failure(ErrorKind::NoSuchMethod, "Deprecated, use Discovery Session"@),
            ),
    {
        Err(Error::new(ErrorKind::NoSuchMethod, "Deprecated, use Discovery Session"))
    }

    /// Asks the adapter to forget the device of the given path.
    pub fn remove_device<T: Transport>(&self, bus: &T, device: String) -> (r: Result<(), Error>)
        ensures
            yields_unit(
                bus,
                self.call("RemoveDevice"@, seq![ValueView::ObjectPath(device@)]),
                content_of(r),
            ),
    {
        let mut args: Vec<Value> = Vec::new();
        args.push(Value::ObjectPath(device));
        assert(args.deep_view() =~= seq![ValueView::ObjectPath(device@)]);
        self.call_method(bus, "RemoveDevice", Some(args))
    }
}

} // verus!
