use vstd::prelude::*;
use crate::errors::{content_of, Error, ErrorView};
use crate::objects::{
    children, decode_objects, implementing, objects_of, paths_implementing, paths_of_children,
    RemoteObject, RemoteObjectView,
};
use crate::transport::{
    call_request, read_request, send, send_for_value, write_request, yields_unit, yields_value,
    BusKind, Request, RequestView, Transport,
};
use crate::value::{contents, required, type_mismatch, Value, ValueView};

verus! {

pub const ADAPTER_INTERFACE: &'static str = "org.bluez.Adapter1";

pub const DEVICE_INTERFACE: &'static str = "org.bluez.Device1";

pub const SERVICE_INTERFACE: &'static str = "org.bluez.GattService1";

pub const CHARACTERISTIC_INTERFACE: &'static str = "org.bluez.GattCharacteristic1";

pub const DESCRIPTOR_INTERFACE: &'static str = "org.bluez.GattDescriptor1";

pub const SERVICE_NAME: &'static str = "org.bluez";

/// The request that asks the daemon for all of its objects.
pub open spec fn enumeration_request() -> RequestView {
    call_request(
        BusKind::System,
        SERVICE_NAME@,
        "/"@,
        "org.freedesktop.DBus.ObjectManager"@,
        "GetManagedObjects"@,
        Seq::empty(),
    )
}

/// The objects that the answer to an enumeration lists; an answer of another
/// shape is a type mismatch, and a failure stays what it is.
pub open spec fn objects_in(answer: Result<ValueView, ErrorView>) -> Result<
    Seq<RemoteObjectView>,
    ErrorView,
> {
    match answer {
        Ok(v) => required(objects_of(v)),
        Err(e) => Err(e),
    }
}

/// One enumeration of the daemon's objects can end in this result.
pub open spec fn enumerated<T: Transport>(
    transport: &T,
    result: Result<Seq<RemoteObjectView>, ErrorView>,
) -> bool {
    exists|answer: Result<ValueView, ErrorView>|
        yields_value(transport, enumeration_request(), answer) && result == objects_in(answer)
}

/// The paths of one kind among the enumerated objects.
pub open spec fn kind_in(
    objects: Result<Seq<RemoteObjectView>, ErrorView>,
    interface: Seq<char>,
) -> Result<Seq<Seq<char>>, ErrorView> {
    match objects {
        Ok(objects) => Ok(implementing(objects, interface)),
        Err(e) => Err(e),
    }
}

/// The children of one parent among the enumerated objects.
pub open spec fn children_in(
    objects: Result<Seq<RemoteObjectView>, ErrorView>,
    interface: Seq<char>,
    back_reference: Seq<char>,
    parent: Seq<char>,
) -> Result<Seq<Seq<char>>, ErrorView> {
    match objects {
        Ok(objects) => Ok(children(objects, interface, back_reference, parent)),
        Err(e) => Err(e),
    }
}

/// Asks the daemon for all of its objects, in one round trip.
pub fn get_managed_objects<T: Transport>(transport: &T) -> (r: Result<Vec<RemoteObject>, Error>)
    ensures
        enumerated(transport, content_of(r)),
{
    let request = Request::call(
        BusKind::System,
        SERVICE_NAME,
        "/",
        "org.freedesktop.DBus.ObjectManager",
        "GetManagedObjects",
        Vec::new(),
    );
    assert(request@.operation == enumeration_request().operation) by {
        assert(contents(Seq::<Value>::empty()) =~= Seq::<ValueView>::empty());
    }
    let answer = send_for_value(transport, &request);
    let r = match answer {
        Ok(v) => match decode_objects(&v) {
            Some(objects) => Ok(objects),
            None => Err(type_mismatch()),
        },
        Err(e) => Err(e),
    };
    assert(content_of(r) == objects_in(content_of(answer)));
    r
}

/// Lists the adapters: the paths of all objects that implement the adapter
/// interface, in the order of the enumeration. An empty list is no failure.
pub fn get_adapters<T: Transport>(transport: &T) -> (r: Result<Vec<String>, Error>)
    ensures
        exists|objects: Result<Seq<RemoteObjectView>, ErrorView>|
            enumerated(transport, objects) && content_of(r) == kind_in(
                objects,
                ADAPTER_INTERFACE@,
            ),
{
    let objects = get_managed_objects(transport);
    let r = match objects {
        Ok(objects) => Ok(paths_implementing(&objects, ADAPTER_INTERFACE)),
        Err(e) => Err(e),
    };
    assert(content_of(r) == kind_in(content_of(objects), ADAPTER_INTERFACE@));
    r
}

/// Lists the objects that implement `item_interface` and whose property
/// `item_property` names `item_path`, in the order of the enumeration.
pub fn list_item<T: Transport>(
    transport: &T,
    item_interface: &str,
    item_path: &str,
    item_property: &str,
) -> (r: Result<Vec<String>, Error>)
    ensures
        exists|objects: Result<Seq<RemoteObjectView>, ErrorView>|
            enumerated(transport, objects) && content_of(r) == children_in(
                objects,
                item_interface@,
                item_property@,
                item_path@,
            ),
{
    let objects = get_managed_objects(transport);
    let r = match objects {
        Ok(objects) => Ok(paths_of_children(&objects, item_interface, item_property, item_path)),
        Err(e) => Err(e),
    };
    assert(content_of(r) == children_in(
        content_of(objects),
        item_interface@,
        item_property@,
        item_path@,
    ));
    r
}

/// Lists the devices that the adapter owns.
pub fn list_devices<T: Transport>(transport: &T, adapter_path: &String) -> (r: Result<
    Vec<String>,
    Error,
>)
    ensures
        exists|objects: Result<Seq<RemoteObjectView>, ErrorView>|
            enumerated(transport, objects) && content_of(r) == children_in(
                objects,
                DEVICE_INTERFACE@,
                "Adapter"@,
                adapter_path@,
            ),
{
    list_item(transport, DEVICE_INTERFACE, adapter_path.as_str(), "Adapter")
}

/// Lists the GATT services that the device owns.
pub fn list_services<T: Transport>(transport: &T, device_path: &String) -> (r: Result<
    Vec<String>,
    Error,
>)
    ensures
        exists|objects: Result<Seq<RemoteObjectView>, ErrorView>|
            enumerated(transport, objects) && content_of(r) == children_in(
                objects,
                SERVICE_INTERFACE@,
                "Device"@,
                device_path@,
            ),
{
    list_item(transport, SERVICE_INTERFACE, device_path.as_str(), "Device")
}

/// Lists the GATT characteristics that the service owns.
pub fn list_characteristics<T: Transport>(transport: &T, device_path: &String) -> (r: Result<
    Vec<String>,
    Error,
>)
    ensures
        exists|objects: Result<Seq<RemoteObjectView>, ErrorView>|
            enumerated(transport, objects) && content_of(r) == children_in(
                objects,
                CHARACTERISTIC_INTERFACE@,
                "Service"@,
                device_path@,
            ),
{
    list_item(transport, CHARACTERISTIC_INTERFACE, device_path.as_str(), "Service")
}

/// Lists the GATT descriptors that the characteristic owns.
pub fn list_descriptors<T: Transport>(transport: &T, device_path: &String) -> (r: Result<
    Vec<String>,
    Error,
>)
    ensures
        exists|objects: Result<Seq<RemoteObjectView>, ErrorView>|
            enumerated(transport, objects) && content_of(r) == children_in(
                objects,
                DESCRIPTOR_INTERFACE@,
                "Characteristic"@,
                device_path@,
            ),
{
    list_item(transport, DESCRIPTOR_INTERFACE, device_path.as_str(), "Characteristic")
}

/// Reads one property of one object of the daemon.
pub fn get_property<T: Transport>(
    transport: &T,
    interface: &str,
    object_path: &str,
    prop: &str,
) -> (r: Result<Value, Error>)
    ensures
        yields_value(
            transport,
            read_request(BusKind::System, SERVICE_NAME@, object_path@, interface@, prop@),
            content_of(r),
        ),
{
    let request = Request::read(BusKind::System, SERVICE_NAME, object_path, interface, prop);
    send_for_value(transport, &request)
}

/// Writes one property of one object of the daemon.
pub fn set_property<T: Transport>(
    transport: &T,
    interface: &str,
    object_path: &str,
    prop: &str,
    value: Value,
) -> (r: Result<(), Error>)
    ensures
        yields_unit(
            transport,
            write_request(BusKind::System, SERVICE_NAME@, object_path@, interface@, prop@, value@),
            content_of(r),
        ),
{
    let request = Request::write(
        BusKind::System,
        SERVICE_NAME,
        object_path,
        interface,
        prop,
        value,
    );
    send(transport, &request)
}

/// The arguments of a call: those given, or none.
pub open spec fn arguments(param: Option<Seq<ValueView>>) -> Seq<ValueView> {
    match param {
        Some(args) => args,
        None => Seq::empty(),
    }
}

/// Invokes one method of one object of the daemon and drops what it returns.
pub fn call_method<T: Transport>(
    transport: &T,
    interface: &str,
    object_path: &str,
    method: &str,
    param: Option<Vec<Value>>,
) -> (r: Result<(), Error>)
    ensures
        yields_unit(
            transport,
            call_request(
                BusKind::System,
                SERVICE_NAME@,
                object_path@,
                interface@,
                method@,
                arguments(param.deep_view()),
            ),
            content_of(r),
        ),
{
    let ghost given = param.deep_view();
    let args = match param {
        Some(p) => {
            assert(p.deep_view() =~= contents(p@));
            p
        },
        None => {
            assert(contents(Seq::<Value>::empty()) =~= Seq::<ValueView>::empty());
            Vec::new()
        },
    };
    assert(contents(args@) == arguments(given));
    let request = Request::call(BusKind::System, SERVICE_NAME, object_path, interface, method, args);
    send(transport, &request)
}

} // verus!
