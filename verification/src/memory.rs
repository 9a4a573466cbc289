use vstd::prelude::*;
use vstd::string::StringExecFns;
use crate::objects::{
    find_property, interface_named, interface_of, interfaces_of, object_of,
    objects_of, properties_of, property_named, property_of, property_value, Interface,
    InterfaceView, Property, PropertyView, RemoteObject, RemoteObjectView,
};
use crate::search::{first_place, first_place_is_first, place_found};
use crate::text::same_text;
use crate::transport::{
    read_request, reply_unit, reply_value, write_request, BusKind, Operation, OperationView,
    Outcome, OutcomeView, Request, RequestView,
};
use crate::value::{array_content, contents, named, Value, ValueView};

verus! {

/// The property list after a write: the first property of that name holds
/// the value; a list without such a property stays as it is.
pub open spec fn with_property(
    properties: Seq<PropertyView>,
    name: Seq<char>,
    value: ValueView,
) -> Seq<PropertyView> {
    match first_place(properties, property_named(name)) {
        Some(i) => properties.update(i, PropertyView { name, value }),
        None => properties,
    }
}

/// The object after a write: under the first interface of that name, the
/// first property of that name holds the value; an object without such an
/// interface stays as it is.
pub open spec fn with_assignment(
    object: RemoteObjectView,
    interface: Seq<char>,
    name: Seq<char>,
    value: ValueView,
) -> RemoteObjectView {
    match first_place(object.interfaces, interface_named(interface)) {
        Some(i) => RemoteObjectView {
            path: object.path,
            interfaces: object.interfaces.update(
                i,
                InterfaceView {
                    name: interface,
                    properties: with_property(object.interfaces[i].properties, name, value),
                },
            ),
        },
        None => object,
    }
}

/// After a write to a property that the object holds, a read of the same
/// property under the same interface finds the written value.
pub proof fn assigned_is_found(
    object: RemoteObjectView,
    interface: Seq<char>,
    name: Seq<char>,
    value: ValueView,
)
    requires
        property_value(object, interface, name) is Some,
    ensures
        property_value(with_assignment(object, interface, name, value), interface, name) == Some(
            value,
        ),
{
    let after = with_assignment(object, interface, name, value);
    let by_name = interface_named(interface);
    first_place_is_first(object.interfaces, by_name);
    let i = first_place(object.interfaces, by_name)->Some_0;
    let before = object.interfaces[i].properties;
    let written = with_property(before, name, value);
    assert forall|j: int| 0 <= j < i implies !by_name(#[trigger] after.interfaces[j]) by {
        assert(after.interfaces[j] == object.interfaces[j]);
    }
    place_found(after.interfaces, by_name, i);
    let by_property = property_named(name);
    first_place_is_first(before, by_property);
    let k = first_place(before, by_property)->Some_0;
    assert forall|j: int| 0 <= j < k implies !by_property(#[trigger] written[j]) by {
        assert(written[j] == before[j]);
    }
    place_found(written, by_property, k);
}

impl Interface {
    /// Gives the first property of that name the value. Where the interface
    /// lists no such property, nothing changes and the answer is `false`.
    pub fn assign(&mut self, name: &str, value: Value) -> (done: bool)
        ensures
            done == (find_property(old(self).deep_view().properties, name@) is Some),
            final(self).deep_view().name == old(self).deep_view().name,
            final(self).deep_view().properties == with_property(
                old(self).deep_view().properties,
                name@,
                value@,
            ),
    {
        let ghost before = self.properties.deep_view();
        let ghost test = property_named(name@);
        let mut i: usize = 0;
        while i < self.properties.len()
            invariant
                i <= self.properties.len(),
                *self == *old(self),
                before == self.properties.deep_view(),
                test == property_named(name@),
                forall|j: int| 0 <= j < i ==> !test(#[trigger] before[j]),
            decreases self.properties.len() - i,
        {
            if same_text(self.properties[i].name.as_str(), name) {
                proof {
                    assert(test(before[i as int]));
                    place_found(before, test, i as int);
                }
                self.properties.set(i, Property { name: String::from_str(name), value });
                assert(self.properties.deep_view() =~= before.update(
                    i as int,
                    PropertyView { name: name@, value: value@ },
                ));
                return true;
            }
            assert(!test(before[i as int]));
            i += 1;
        }
        proof {
            place_found(before, test, before.len() as int);
        }
        false
    }
}

impl RemoteObject {
    /// Gives the property under the interface the value. Where the object
    /// holds no such property, nothing changes and the answer is `false`.
    pub fn assign(&mut self, interface: &str, name: &str, value: Value) -> (done: bool)
        ensures
            done == (property_value(old(self).deep_view(), interface@, name@) is Some),
            final(self).deep_view() == with_assignment(
                old(self).deep_view(),
                interface@,
                name@,
                value@,
            ),
    {
        let ghost before = self.interfaces.deep_view();
        let ghost test = interface_named(interface@);
        let mut i: usize = 0;
        while i < self.interfaces.len()
            invariant
                i <= self.interfaces.len(),
                *self == *old(self),
                before == self.interfaces.deep_view(),
                test == interface_named(interface@),
                forall|j: int| 0 <= j < i ==> !test(#[trigger] before[j]),
            decreases self.interfaces.len() - i,
        {
            if same_text(self.interfaces[i].name.as_str(), interface) {
                proof {
                    assert(test(before[i as int]));
                    place_found(before, test, i as int);
                }
                let done = self.interfaces[i].assign(name, value);
                assert(self.interfaces.deep_view() =~= before.update(
                    i as int,
                    InterfaceView {
                        name: interface@,
                        properties: with_property(before[i as int].properties, name@, value@),
                    },
                ));
                return done;
            }
            assert(!test(before[i as int]));
            i += 1;
        }
        proof {
            place_found(before, test, before.len() as int);
        }
        false
    }
}

/// The test for the object at that path.
pub open spec fn at_path(path: Seq<char>) -> spec_fn(RemoteObjectView) -> bool {
    |object: RemoteObjectView| object.path == path
}

/// The value that the first object at the path holds for the property.
pub open spec fn stored(
    objects: Seq<RemoteObjectView>,
    path: Seq<char>,
    interface: Seq<char>,
    name: Seq<char>,
) -> Option<ValueView> {
    match first_place(objects, at_path(path)) {
        Some(i) => property_value(objects[i], interface, name),
        None => None,
    }
}

/// The objects after a write to the first object at the path.
pub open spec fn after_write(
    objects: Seq<RemoteObjectView>,
    path: Seq<char>,
    interface: Seq<char>,
    name: Seq<char>,
    value: ValueView,
) -> Seq<RemoteObjectView> {
    match first_place(objects, at_path(path)) {
        Some(i) => objects.update(i, with_assignment(objects[i], interface, name, value)),
        None => objects,
    }
}

/// A property as an enumeration carries it.
pub open spec fn property_entry(property: PropertyView) -> ValueView {
    named(property.name, property.value)
}

/// An interface as an enumeration carries it.
pub open spec fn interface_entry(interface: InterfaceView) -> ValueView {
    ValueView::DictEntry(
        Box::new(ValueView::Str(interface.name)),
        Box::new(
            ValueView::Array(
                Seq::new(
                    interface.properties.len(),
                    |i: int| property_entry(interface.properties[i]),
                ),
                "{sv}"@,
            ),
        ),
    )
}

/// An object as an enumeration carries it.
pub open spec fn object_entry(object: RemoteObjectView) -> ValueView {
    ValueView::DictEntry(
        Box::new(ValueView::ObjectPath(object.path)),
        Box::new(
            ValueView::Array(
                Seq::new(object.interfaces.len(), |i: int| interface_entry(object.interfaces[i])),
                "{sa{sv}}"@,
            ),
        ),
    )
}

/// The objects as the reply to an enumeration carries them.
pub open spec fn enumeration(objects: Seq<RemoteObjectView>) -> ValueView {
    ValueView::Array(Seq::new(objects.len(), |i: int| object_entry(objects[i])), "{oa{sa{sv}}}"@)
}

/// What the reply to an enumeration carries reads back as the objects that
/// went into it.
pub proof fn enumeration_reads_back(objects: Seq<RemoteObjectView>)
    ensures
        objects_of(enumeration(objects)) == Some(objects),
{
    assert forall|i: int| 0 <= i < objects.len() implies object_of(
        #[trigger] object_entry(objects[i]),
    ) == Some(objects[i]) by {
        let object = objects[i];
        let listed = Seq::new(
            object.interfaces.len(),
            |k: int| interface_entry(object.interfaces[k]),
        );
        assert forall|k: int| 0 <= k < object.interfaces.len() implies interface_of(
            #[trigger] listed[k],
        ) == Some(object.interfaces[k]) by {
            let interface = object.interfaces[k];
            let entries = Seq::new(
                interface.properties.len(),
                |m: int| property_entry(interface.properties[m]),
            );
            assert forall|m: int| 0 <= m < entries.len() implies property_of(
                #[trigger] entries[m],
            ) == Some(interface.properties[m]) by {}
            assert(properties_of(entries)->Some_0 =~= interface.properties);
        }
        assert(interfaces_of(listed)->Some_0 =~= object.interfaces);
    }
    let entries = Seq::new(objects.len(), |i: int| object_entry(objects[i]));
    assert forall|i: int| 0 <= i < entries.len() implies #[trigger] object_of(entries[i])
        is Some by {
        assert(entries[i] == object_entry(objects[i]));
    }
    assert(objects_of(enumeration(objects))->Some_0 =~= objects) by {
        assert forall|i: int| 0 <= i < entries.len() implies object_of(entries[i])->Some_0
            == objects[i] by {
            assert(entries[i] == object_entry(objects[i]));
        }
    }
}

/// The failure with which the daemon answers a request for a property that
/// it does not hold.
pub open spec fn unknown_property() -> OutcomeView {
    OutcomeView::Refused {
        name: "org.freedesktop.DBus.Error.UnknownProperty"@,
        message: "no such property"@,
    }
}

/// The failure with which the daemon answers a call that it does not know.
pub open spec fn unknown_method() -> OutcomeView {
    OutcomeView::Refused {
        name: "org.freedesktop.DBus.Error.UnknownMethod"@,
        message: "no such method"@,
    }
}

/// Whether a request is the enumeration of all objects.
pub open spec fn asks_enumeration(request: RequestView) -> bool {
    request.path == "/"@ && request.interface == "org.freedesktop.DBus.ObjectManager"@
        && request.operation is Invoke && request.operation->Invoke_0 == "GetManagedObjects"@
}

/// How a daemon that holds the objects reacts to a request: the objects that
/// it holds afterwards, and the outcome of the round trip. A read answers
/// with the stored value; a write stores the value where the property
/// exists; the enumeration answers with all objects; every other call is
/// unknown.
pub open spec fn reaction(objects: Seq<RemoteObjectView>, request: RequestView) -> (
    Seq<RemoteObjectView>,
    OutcomeView,
) {
    match request.operation {
        OperationView::Read(name) => (
            objects,
            match stored(objects, request.path, request.interface, name) {
                Some(v) => OutcomeView::Reply(seq![v]),
                None => unknown_property(),
            },
        ),
        OperationView::Write(name, value) => if stored(
            objects,
            request.path,
            request.interface,
            name,
        ) is Some {
            (
                after_write(objects, request.path, request.interface, name, value),
                OutcomeView::Reply(Seq::empty()),
            )
        } else {
            (objects, unknown_property())
        },
        OperationView::Invoke(_, _) => if asks_enumeration(request) {
            (objects, OutcomeView::Reply(seq![enumeration(objects)]))
        } else {
            (objects, unknown_method())
        },
    }
}

/// What was written is what is read: where a write of a property succeeds, a
/// read of the same property of the same object under the same interface,
/// with nothing in between, returns the written value.
pub proof fn written_is_read(
    objects: Seq<RemoteObjectView>,
    bus: BusKind,
    service: Seq<char>,
    path: Seq<char>,
    interface: Seq<char>,
    name: Seq<char>,
    value: ValueView,
)
    requires
        reply_unit(
            reaction(objects, write_request(bus, service, path, interface, name, value)).1,
        ) is Ok,
    ensures
        reply_value(
            reaction(
                reaction(objects, write_request(bus, service, path, interface, name, value)).0,
                read_request(bus, service, path, interface, name),
            ).1,
        ) == Ok::<ValueView, crate::errors::ErrorView>(value),
{
    let test = at_path(path);
    first_place_is_first(objects, test);
    let i = first_place(objects, test)->Some_0;
    let after = after_write(objects, path, interface, name, value);
    assert forall|j: int| 0 <= j < i implies !test(#[trigger] after[j]) by {
        assert(after[j] == objects[j]);
    }
    assert(test(after[i]));
    place_found(after, test, i);
    assigned_is_found(objects[i], interface, name, value);
}

fn encode_interface(interface: &Interface) -> (v: Value)
    ensures
        v@ == interface_entry(interface.deep_view()),
{
    let ghost listed = interface.deep_view().properties;
    let mut entries: Vec<Value> = Vec::new();
    let mut i: usize = 0;
    while i < interface.properties.len()
        invariant
            i <= interface.properties.len(),
            entries.len() == i,
            listed == interface.properties.deep_view(),
            forall|j: int| 0 <= j < i ==> entries[j]@ == property_entry(listed[j]),
        decreases interface.properties.len() - i,
    {
        let property = &interface.properties[i];
        assert(listed[i as int] == property.deep_view());
        entries.push(Value::named(property.name.as_str(), property.value.duplicate()));
        i += 1;
    }
    let signature = String::from_str("{sv}");
    proof {
        array_content(entries, signature);
        assert(contents(entries@) =~= Seq::new(listed.len(), |i: int| property_entry(listed[i])));
    }
    let list = Value::Array(entries, signature);
    let key = Value::text(interface.name.as_str());
    Value::DictEntry(Box::new(key), Box::new(list))
}

fn encode_object(object: &RemoteObject) -> (v: Value)
    ensures
        v@ == object_entry(object.deep_view()),
{
    let ghost listed = object.deep_view().interfaces;
    let mut entries: Vec<Value> = Vec::new();
    let mut i: usize = 0;
    while i < object.interfaces.len()
        invariant
            i <= object.interfaces.len(),
            entries.len() == i,
            listed == object.interfaces.deep_view(),
            forall|j: int| 0 <= j < i ==> entries[j]@ == interface_entry(listed[j]),
        decreases object.interfaces.len() - i,
    {
        assert(listed[i as int] == object.interfaces[i as int].deep_view());
        entries.push(encode_interface(&object.interfaces[i]));
        i += 1;
    }
    let signature = String::from_str("{sa{sv}}");
    proof {
        array_content(entries, signature);
        assert(contents(entries@) =~= Seq::new(listed.len(), |i: int| interface_entry(listed[i])));
    }
    let list = Value::Array(entries, signature);
    let key = Value::object_path(object.path.as_str());
    Value::DictEntry(Box::new(key), Box::new(list))
}

/// Writes the objects as the reply to an enumeration carries them.
pub fn encode_objects(objects: &Vec<RemoteObject>) -> (v: Value)
    ensures
        v@ == enumeration(objects.deep_view()),
{
    let ghost listed = objects.deep_view();
    let mut entries: Vec<Value> = Vec::new();
    let mut i: usize = 0;
    while i < objects.len()
        invariant
            i <= objects.len(),
            entries.len() == i,
            listed == objects.deep_view(),
            forall|j: int| 0 <= j < i ==> entries[j]@ == object_entry(listed[j]),
        decreases objects.len() - i,
    {
        assert(listed[i as int] == objects[i as int].deep_view());
        entries.push(encode_object(&objects[i]));
        i += 1;
    }
    let signature = String::from_str("{oa{sa{sv}}}");
    proof {
        array_content(entries, signature);
        assert(contents(entries@) =~= Seq::new(listed.len(), |i: int| object_entry(listed[i])));
    }
    Value::Array(entries, signature)
}

/// A daemon in memory: it holds objects and reacts to requests as
/// [`reaction`] says. It stands in for the real daemon where none runs.
pub struct MemoryDaemon {
    pub objects: Vec<RemoteObject>,
}

impl MemoryDaemon {
    /// A daemon that holds the given objects.
    pub fn new(objects: Vec<RemoteObject>) -> (daemon: MemoryDaemon)
        ensures
            daemon.objects == objects,
    {
        MemoryDaemon { objects }
    }

    /// Finds the first object at the path.
    fn place(&self, path: &str) -> (r: Option<usize>)
        ensures
            match first_place(self.objects.deep_view(), at_path(path@)) {
                Some(i) => r == Some(i as usize) && 0 <= i < self.objects.len(),
                None => r is None,
            },
    {
        let ghost all = self.objects.deep_view();
        let ghost test = at_path(path@);
        let mut i: usize = 0;
        while i < self.objects.len()
            invariant
                i <= self.objects.len(),
                all == self.objects.deep_view(),
                test == at_path(path@),
                forall|j: int| 0 <= j < i ==> !test(#[trigger] all[j]),
            decreases self.objects.len() - i,
        {
            if same_text(self.objects[i].path.as_str(), path) {
                proof {
                    assert(test(all[i as int]));
                    place_found(all, test, i as int);
                }
                return Some(i);
            }
            assert(!test(all[i as int]));
            i += 1;
        }
        proof {
            place_found(all, test, all.len() as int);
        }
        None
    }

    fn refuse_property() -> (outcome: Outcome)
        ensures
            outcome@ == unknown_property(),
    {
        Outcome::Refused {
            name: String::from_str("org.freedesktop.DBus.Error.UnknownProperty"),
            message: String::from_str("no such property"),
        }
    }

    /// The value that the daemon holds for the property, if it holds one.
    pub fn read(&self, path: &str, interface: &str, name: &str) -> (r: Option<&Value>)
        ensures
            r.deep_view() == stored(self.objects.deep_view(), path@, interface@, name@),
    {
        match self.place(path) {
            Some(i) => self.objects[i].property(interface, name),
            None => None,
        }
    }

    /// Reacts to one request.
    pub fn answer(&mut self, request: &Request) -> (outcome: Outcome)
        ensures
            (final(self).objects.deep_view(), outcome@) == reaction(
                old(self).objects.deep_view(),
                request@,
            ),
    {
        let ghost before = self.objects.deep_view();
        match &request.operation {
            Operation::Read(name) => {
                match self.read(request.path.as_str(), request.interface.as_str(), name.as_str()) {
                    Some(v) => {
                        let mut items: Vec<Value> = Vec::new();
                        items.push(v.duplicate());
                        assert(contents(items@) =~= seq![v@]);
                        Outcome::Reply(items)
                    },
                    None => MemoryDaemon::refuse_property(),
                }
            },
            Operation::Write(name, value) => {
                match self.place(request.path.as_str()) {
                    Some(i) => {
                        let done = self.objects[i].assign(
                            request.interface.as_str(),
                            name.as_str(),
                            value.duplicate(),
                        );
                        assert(self.objects.deep_view() =~= before.update(
                            i as int,
                            with_assignment(
                                before[i as int],
                                request.interface@,
                                name@,
                                value@,
                            ),
                        ));
                        if done {
                            assert(contents(Seq::<Value>::empty()) =~= Seq::<ValueView>::empty());
                            Outcome::Reply(Vec::new())
                        } else {
                            proof {
                                first_place_is_first(
                                    before[i as int].interfaces,
                                    interface_named(request.interface@),
                                );
                                assert(self.objects.deep_view() =~= before) by {
                                    match first_place(
                                        before[i as int].interfaces,
                                        interface_named(request.interface@),
                                    ) {
                                        Some(k) => {
                                            assert(with_assignment(
                                                before[i as int],
                                                request.interface@,
                                                name@,
                                                value@,
                                            ).interfaces =~= before[i as int].interfaces);
                                        },
                                        None => {},
                                    }
                                }
                            }
                            MemoryDaemon::refuse_property()
                        }
                    },
                    None => MemoryDaemon::refuse_property(),
                }
            },
            Operation::Invoke(method, _) => {
                if same_text(request.path.as_str(), "/") && same_text(
                    request.interface.as_str(),
                    "org.freedesktop.DBus.ObjectManager",
                ) && same_text(method.as_str(), "GetManagedObjects") {
                    let mut items: Vec<Value> = Vec::new();
                    items.push(encode_objects(&self.objects));
                    assert(contents(items@) =~= seq![enumeration(before)]);
                    Outcome::Reply(items)
                } else {
                    Outcome::Refused {
                        name: String::from_str("org.freedesktop.DBus.Error.UnknownMethod"),
                        message: String::from_str("no such method"),
                    }
                }
            },
        }
    }
}

} // verus!
