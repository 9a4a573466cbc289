use vstd::prelude::*;
use vstd::string::StringExecFns;
use crate::search::{first_place, place_found};
use crate::text::same_text;
use crate::value::{contents, items_of, text_of, Value, ValueView};

verus! {

/// One property of a remote object: its name and its current value.
#[derive(Debug, PartialEq)]
pub struct Property {
    pub name: String,
    pub value: Value,
}

/// The content of a [`Property`].
pub struct PropertyView {
    pub name: Seq<char>,
    pub value: ValueView,
}

impl DeepView for Property {
    type V = PropertyView;

    open spec fn deep_view(&self) -> PropertyView {
        PropertyView { name: self.name@, value: self.value@ }
    }
}

/// One interface that a remote object implements, with its properties in
/// the order in which the daemon listed them.
#[derive(Debug, PartialEq)]
pub struct Interface {
    pub name: String,
    pub properties: Vec<Property>,
}

/// The content of an [`Interface`].
pub struct InterfaceView {
    pub name: Seq<char>,
    pub properties: Seq<PropertyView>,
}

impl DeepView for Interface {
    type V = InterfaceView;

    open spec fn deep_view(&self) -> InterfaceView {
        InterfaceView { name: self.name@, properties: self.properties.deep_view() }
    }
}

/// One object of the daemon's flat namespace, as one enumeration showed it.
#[derive(Debug, PartialEq)]
pub struct RemoteObject {
    pub path: String,
    pub interfaces: Vec<Interface>,
}

/// The content of a [`RemoteObject`].
pub struct RemoteObjectView {
    pub path: Seq<char>,
    pub interfaces: Seq<InterfaceView>,
}

impl DeepView for RemoteObject {
    type V = RemoteObjectView;

    open spec fn deep_view(&self) -> RemoteObjectView {
        RemoteObjectView { path: self.path@, interfaces: self.interfaces.deep_view() }
    }
}

/// A property value as the enumeration carries it is wrapped in a variant;
/// this is the value without that wrapper.
pub open spec fn unwrapped(v: ValueView) -> ValueView {
    match v {
        ValueView::Variant(inner) => *inner,
        _ => v,
    }
}

/// A dictionary entry from a name to a value is a property.
pub open spec fn property_of(v: ValueView) -> Option<PropertyView> {
    match v {
        ValueView::DictEntry(key, value) => match text_of(*key) {
            Some(name) => Some(PropertyView { name, value: unwrapped(*value) }),
            None => None,
        },
        _ => None,
    }
}

/// A sequence of entries is a property list when every entry is a property.
pub open spec fn properties_of(entries: Seq<ValueView>) -> Option<Seq<PropertyView>> {
    if forall|i: int| 0 <= i < entries.len() ==> #[trigger] property_of(entries[i]) is Some {
        Some(Seq::new(entries.len(), |i: int| property_of(entries[i])->Some_0))
    } else {
        None
    }
}

/// A dictionary entry from a name to a property list is an interface.
pub open spec fn interface_of(v: ValueView) -> Option<InterfaceView> {
    match v {
        ValueView::DictEntry(key, value) => match (text_of(*key), items_of(*value)) {
            (Some(name), Some(entries)) => match properties_of(entries) {
                Some(properties) => Some(InterfaceView { name, properties }),
                None => None,
            },
            _ => None,
        },
        _ => None,
    }
}

/// A sequence of entries is an interface list when every entry is an
/// interface.
pub open spec fn interfaces_of(entries: Seq<ValueView>) -> Option<Seq<InterfaceView>> {
    if forall|i: int| 0 <= i < entries.len() ==> #[trigger] interface_of(entries[i]) is Some {
        Some(Seq::new(entries.len(), |i: int| interface_of(entries[i])->Some_0))
    } else {
        None
    }
}

/// A dictionary entry from a path to an interface list is an object.
pub open spec fn object_of(v: ValueView) -> Option<RemoteObjectView> {
    match v {
        ValueView::DictEntry(key, value) => match (text_of(*key), items_of(*value)) {
            (Some(path), Some(entries)) => match interfaces_of(entries) {
                Some(interfaces) => Some(RemoteObjectView { path, interfaces }),
                None => None,
            },
            _ => None,
        },
        _ => None,
    }
}

/// The objects that an enumeration reply lists, in its order; `None` when
/// the reply does not have the shape of an enumeration.
pub open spec fn objects_of(v: ValueView) -> Option<Seq<RemoteObjectView>> {
    match items_of(v) {
        Some(entries) => if forall|i: int|
            0 <= i < entries.len() ==> #[trigger] object_of(entries[i]) is Some {
            Some(Seq::new(entries.len(), |i: int| object_of(entries[i])->Some_0))
        } else {
            None
        },
        None => None,
    }
}

fn decode_property(v: &Value) -> (r: Option<Property>)
    ensures
        r.deep_view() == property_of(v@),
{
    match v.as_entry() {
        Some((key, value)) => match key.as_text() {
            Some(name) => {
                let value = match value.as_inner() {
                    Some(inner) => inner.duplicate(),
                    None => value.duplicate(),
                };
                Some(Property { name: String::from_str(name), value })
            },
            None => None,
        },
        None => None,
    }
}

fn decode_properties(entries: &Vec<Value>) -> (r: Option<Vec<Property>>)
    ensures
        r.deep_view() == properties_of(contents(entries@)),
{
    let ghost views = contents(entries@);
    let mut properties: Vec<Property> = Vec::new();
    let mut i: usize = 0;
    while i < entries.len()
        invariant
            i <= entries.len(),
            properties.len() == i,
            views == contents(entries@),
            forall|j: int|
                0 <= j < i ==> property_of(#[trigger] views[j]) == Some(properties[j].deep_view()),
        decreases entries.len() - i,
    {
        match decode_property(&entries[i]) {
            Some(p) => properties.push(p),
            None => {
                assert(property_of(views[i as int]) is None);
                return None;
            },
        }
        i += 1;
    }
    assert(properties.deep_view() =~= properties_of(views)->Some_0);
    Some(properties)
}

fn decode_interface(v: &Value) -> (r: Option<Interface>)
    ensures
        r.deep_view() == interface_of(v@),
{
    match v.as_entry() {
        Some((key, value)) => match key.as_text() {
            Some(name) => match value.as_items() {
                Some(entries) => {
                    assert(entries.deep_view() =~= contents(entries@));
                    match decode_properties(entries) {
                        Some(properties) => Some(
                            Interface { name: String::from_str(name), properties },
                        ),
                        None => None,
                    }
                },
                None => None,
            },
            None => None,
        },
        None => None,
    }
}

fn decode_interfaces(entries: &Vec<Value>) -> (r: Option<Vec<Interface>>)
    ensures
        r.deep_view() == interfaces_of(contents(entries@)),
{
    let ghost views = contents(entries@);
    let mut interfaces: Vec<Interface> = Vec::new();
    let mut i: usize = 0;
    while i < entries.len()
        invariant
            i <= entries.len(),
            interfaces.len() == i,
            views == contents(entries@),
            forall|j: int|
                0 <= j < i ==> interface_of(#[trigger] views[j]) == Some(
                    interfaces[j].deep_view(),
                ),
        decreases entries.len() - i,
    {
        match decode_interface(&entries[i]) {
            Some(p) => interfaces.push(p),
            None => {
                assert(interface_of(views[i as int]) is None);
                return None;
            },
        }
        i += 1;
    }
    assert(interfaces.deep_view() =~= interfaces_of(views)->Some_0);
    Some(interfaces)
}

fn decode_object(v: &Value) -> (r: Option<RemoteObject>)
    ensures
        r.deep_view() == object_of(v@),
{
    match v.as_entry() {
        Some((key, value)) => match key.as_text() {
            Some(path) => match value.as_items() {
                Some(entries) => {
                    assert(entries.deep_view() =~= contents(entries@));
                    match decode_interfaces(entries) {
                        Some(interfaces) => Some(
                            RemoteObject { path: String::from_str(path), interfaces },
                        ),
                        None => None,
                    }
                },
                None => None,
            },
            None => None,
        },
        None => None,
    }
}

/// Reads an enumeration reply as the list of objects that it describes.
pub fn decode_objects(v: &Value) -> (r: Option<Vec<RemoteObject>>)
    ensures
        r.deep_view() == objects_of(v@),
{
    match v.as_items() {
        Some(entries) => {
            assert(entries.deep_view() =~= contents(entries@));
            let ghost views = contents(entries@);
            let mut objects: Vec<RemoteObject> = Vec::new();
            let mut i: usize = 0;
            while i < entries.len()
                invariant
                    i <= entries.len(),
                    objects.len() == i,
                    views == contents(entries@),
                    items_of(v@) == Some(views),
                    forall|j: int|
                        0 <= j < i ==> object_of(#[trigger] views[j]) == Some(
                            objects[j].deep_view(),
                        ),
                decreases entries.len() - i,
            {
                match decode_object(&entries[i]) {
                    Some(p) => objects.push(p),
                    None => {
                        assert(object_of(views[i as int]) is None);
                        return None;
                    },
                }
                i += 1;
            }
            assert(objects.deep_view() =~= objects_of(v@)->Some_0);
            Some(objects)
        },
        None => None,
    }
}

/// The test for an interface of that name.
pub open spec fn interface_named(name: Seq<char>) -> spec_fn(InterfaceView) -> bool {
    |interface: InterfaceView| interface.name == name
}

/// The test for a property of that name.
pub open spec fn property_named(name: Seq<char>) -> spec_fn(PropertyView) -> bool {
    |property: PropertyView| property.name == name
}

/// The first interface of that name in the list.
pub open spec fn find_interface(interfaces: Seq<InterfaceView>, name: Seq<char>) -> Option<
    InterfaceView,
> {
    match first_place(interfaces, interface_named(name)) {
        Some(i) => Some(interfaces[i]),
        None => None,
    }
}

/// The value of the first property of that name in the list.
pub open spec fn find_property(properties: Seq<PropertyView>, name: Seq<char>) -> Option<
    ValueView,
> {
    match first_place(properties, property_named(name)) {
        Some(i) => Some(properties[i].value),
        None => None,
    }
}

/// The object advertises the interface.
pub open spec fn implements(object: RemoteObjectView, interface: Seq<char>) -> bool {
    find_interface(object.interfaces, interface) is Some
}

/// The value that the object holds for the property under the interface.
pub open spec fn property_value(
    object: RemoteObjectView,
    interface: Seq<char>,
    name: Seq<char>,
) -> Option<ValueView> {
    match find_interface(object.interfaces, interface) {
        Some(found) => find_property(found.properties, name),
        None => None,
    }
}

/// The object implements the interface, and its back-reference property
/// under that interface names exactly this parent.
pub open spec fn is_child(
    object: RemoteObjectView,
    interface: Seq<char>,
    back_reference: Seq<char>,
    parent: Seq<char>,
) -> bool {
    match property_value(object, interface, back_reference) {
        Some(v) => text_of(v) == Some(parent),
        None => false,
    }
}

/// The test that selects the objects of one kind.
pub open spec fn of_kind(interface: Seq<char>) -> spec_fn(RemoteObjectView) -> bool {
    |object: RemoteObjectView| implements(object, interface)
}

/// The test that selects the objects of one kind that one parent owns.
pub open spec fn owned_by(
    interface: Seq<char>,
    back_reference: Seq<char>,
    parent: Seq<char>,
) -> spec_fn(RemoteObjectView) -> bool {
    |object: RemoteObjectView| is_child(object, interface, back_reference, parent)
}

/// The paths of the objects, in order.
pub open spec fn paths(objects: Seq<RemoteObjectView>) -> Seq<Seq<char>> {
    objects.map_values(|object: RemoteObjectView| object.path)
}

/// The paths of the objects that implement the interface, in the order of
/// the enumeration.
pub open spec fn implementing(objects: Seq<RemoteObjectView>, interface: Seq<char>) -> Seq<
    Seq<char>,
> {
    paths(objects.filter(of_kind(interface)))
}

/// The paths of the objects that implement the interface and name the parent
/// in their back-reference property, in the order of the enumeration.
pub open spec fn children(
    objects: Seq<RemoteObjectView>,
    interface: Seq<char>,
    back_reference: Seq<char>,
    parent: Seq<char>,
) -> Seq<Seq<char>> {
    paths(objects.filter(owned_by(interface, back_reference, parent)))
}

impl Interface {
    /// The value of the property of that name, if the interface lists one.
    pub fn property(&self, name: &str) -> (r: Option<&Value>)
        ensures
            r.deep_view() == find_property(self.deep_view().properties, name@),
    {
        let ghost all = self.properties.deep_view();
        let ghost test = property_named(name@);
        let mut i: usize = 0;
        while i < self.properties.len()
            invariant
                i <= self.properties.len(),
                all == self.properties.deep_view(),
                test == property_named(name@),
                forall|j: int| 0 <= j < i ==> !test(#[trigger] all[j]),
            decreases self.properties.len() - i,
        {
            if same_text(self.properties[i].name.as_str(), name) {
                proof {
                    assert(test(all[i as int]));
                    place_found(all, test, i as int);
                }
                return Some(&self.properties[i].value);
            }
            assert(!test(all[i as int]));
            i += 1;
        }
        proof {
            place_found(all, test, all.len() as int);
        }
        None
    }
}

impl RemoteObject {
    /// The interface of that name, if the object advertises it.
    pub fn interface(&self, name: &str) -> (r: Option<&Interface>)
        ensures
            r.deep_view() == find_interface(self.deep_view().interfaces, name@),
    {
        let ghost all = self.interfaces.deep_view();
        let ghost test = interface_named(name@);
        let mut i: usize = 0;
        while i < self.interfaces.len()
            invariant
                i <= self.interfaces.len(),
                all == self.interfaces.deep_view(),
                test == interface_named(name@),
                forall|j: int| 0 <= j < i ==> !test(#[trigger] all[j]),
            decreases self.interfaces.len() - i,
        {
            if same_text(self.interfaces[i].name.as_str(), name) {
                proof {
                    assert(test(all[i as int]));
                    place_found(all, test, i as int);
                }
                return Some(&self.interfaces[i]);
            }
            assert(!test(all[i as int]));
            i += 1;
        }
        proof {
            place_found(all, test, all.len() as int);
        }
        None
    }

    /// Whether the object advertises the interface.
    pub fn implements(&self, interface: &str) -> (r: bool)
        ensures
            r == implements(self.deep_view(), interface@),
    {
        self.interface(interface).is_some()
    }

    /// The value that the object holds for the property under the interface.
    pub fn property(&self, interface: &str, name: &str) -> (r: Option<&Value>)
        ensures
            r.deep_view() == property_value(self.deep_view(), interface@, name@),
    {
        match self.interface(interface) {
            Some(found) => found.property(name),
            None => None,
        }
    }

    /// Whether the object is of the given kind and names the parent in its
    /// back-reference property.
    pub fn is_child_of(&self, interface: &str, back_reference: &str, parent: &str) -> (r: bool)
        ensures
            r == is_child(self.deep_view(), interface@, back_reference@, parent@),
    {
        match self.property(interface, back_reference) {
            Some(v) => match v.as_text() {
                Some(t) => same_text(t, parent),
                None => false,
            },
            None => false,
        }
    }
}

/// Selects the objects that implement the interface and hands back their
/// paths, in the order of the enumeration.
pub fn paths_implementing(objects: &Vec<RemoteObject>, interface: &str) -> (r: Vec<String>)
    ensures
        r.deep_view() == implementing(objects.deep_view(), interface@),
{
    let ghost all = objects.deep_view();
    let ghost test = of_kind(interface@);
    let mut found: Vec<String> = Vec::new();
    let mut i: usize = 0;
    proof {
        reveal(Seq::filter);
        assert(all.take(0).filter(test) =~= Seq::<RemoteObjectView>::empty());
        assert(found.deep_view() =~= paths(all.take(0).filter(test)));
    }
    while i < objects.len()
        invariant
            i <= objects.len(),
            all == objects.deep_view(),
            test == of_kind(interface@),
            found.deep_view() == paths(all.take(i as int).filter(test)),
        decreases objects.len() - i,
    {
        let ghost before = found.deep_view();
        proof {
            let head = all.take(i as int);
            let object = all[i as int];
            assert(all.take(i + 1) =~= head.push(object));
            head.lemma_filter_push(object, test);
            head.filter(test).lemma_push_map_commute(|object: RemoteObjectView| object.path, object);
        }
        if objects[i].implements(interface) {
            found.push(objects[i].path.clone());
            assert(found.deep_view() =~= before.push(all[i as int].path));
        }
        i += 1;
    }
    assert(all.take(objects.len() as int) =~= all);
    found
}

/// Selects the objects that implement the interface and name the parent in
/// their back-reference property, and hands back their paths, in the order
/// of the enumeration.
pub fn paths_of_children(
    objects: &Vec<RemoteObject>,
    interface: &str,
    back_reference: &str,
    parent: &str,
) -> (r: Vec<String>)
    ensures
        r.deep_view() == children(objects.deep_view(), interface@, back_reference@, parent@),
{
    let ghost all = objects.deep_view();
    let ghost test = owned_by(interface@, back_reference@, parent@);
    let mut found: Vec<String> = Vec::new();
    let mut i: usize = 0;
    proof {
        reveal(Seq::filter);
        assert(all.take(0).filter(test) =~= Seq::<RemoteObjectView>::empty());
        assert(found.deep_view() =~= paths(all.take(0).filter(test)));
    }
    while i < objects.len()
        invariant
            i <= objects.len(),
            all == objects.deep_view(),
            test == owned_by(interface@, back_reference@, parent@),
            found.deep_view() == paths(all.take(i as int).filter(test)),
        decreases objects.len() - i,
    {
        let ghost before = found.deep_view();
        proof {
            let head = all.take(i as int);
            let object = all[i as int];
            assert(all.take(i + 1) =~= head.push(object));
            head.lemma_filter_push(object, test);
            head.filter(test).lemma_push_map_commute(|object: RemoteObjectView| object.path, object);
        }
        if objects[i].is_child_of(interface, back_reference, parent) {
            found.push(objects[i].path.clone());
            assert(found.deep_view() =~= before.push(all[i as int].path));
        }
        i += 1;
    }
    assert(all.take(objects.len() as int) =~= all);
    found
}

/// A path is selected exactly when some object that passes the test carries
/// it, and where no two objects share a path, no path is selected twice.
proof fn selection_is_exact(
    objects: Seq<RemoteObjectView>,
    test: spec_fn(RemoteObjectView) -> bool,
)
    ensures
        forall|p: Seq<char>| #[trigger]
            paths(objects.filter(test)).contains(p) <==> exists|i: int|
                0 <= i < objects.len() && (#[trigger] objects[i]).path == p && test(objects[i]),
        paths(objects).no_duplicates() ==> paths(objects.filter(test)).no_duplicates(),
    decreases objects.len(),
{
    reveal(Seq::filter);
    if objects.len() == 0 {
        assert(objects.filter(test) =~= Seq::<RemoteObjectView>::empty());
    } else {
        let head = objects.drop_last();
        let last = objects.last();
        let kept = head.filter(test);
        assert(objects =~= head.push(last));
        head.lemma_filter_push(last, test);
        kept.lemma_push_map_commute(|object: RemoteObjectView| object.path, last);
        selection_is_exact(head, test);
        let chosen = paths(objects.filter(test));
        assert forall|p: Seq<char>| #[trigger]
            chosen.contains(p) <==> exists|i: int|
                0 <= i < objects.len() && (#[trigger] objects[i]).path == p && test(objects[i]) by {
            if chosen.contains(p) {
                let j = choose|j: int| 0 <= j < chosen.len() && chosen[j] == p;
                if test(last) && j == chosen.len() - 1 {
                    assert(objects[objects.len() - 1].path == p);
                } else {
                    assert(paths(kept)[j] == p);
                    assert(paths(kept).contains(p));
                    let i = choose|i: int|
                        0 <= i < head.len() && (#[trigger] head[i]).path == p && test(head[i]);
                    assert(objects[i].path == p && test(objects[i]));
                }
            }
            if exists|i: int|
                0 <= i < objects.len() && (#[trigger] objects[i]).path == p && test(objects[i]) {
                let i = choose|i: int|
                    0 <= i < objects.len() && (#[trigger] objects[i]).path == p && test(
                        objects[i],
                    );
                if i == objects.len() - 1 {
                    assert(chosen[chosen.len() - 1] == p);
                } else {
                    assert(head[i].path == p && test(head[i]));
                    assert(paths(kept).contains(p));
                    let j = choose|j: int| 0 <= j < paths(kept).len() && paths(kept)[j] == p;
                    assert(chosen[j] == p);
                }
            }
        }
        if paths(objects).no_duplicates() {
            assert forall|i: int, j: int|
                0 <= i < head.len() && 0 <= j < head.len() && i != j implies paths(head)[i]
                != paths(head)[j] by {
                assert(paths(objects)[i] == paths(head)[i]);
                assert(paths(objects)[j] == paths(head)[j]);
            }
            assert(paths(head).no_duplicates());
            if test(last) {
                if paths(kept).contains(last.path) {
                    let i = choose|i: int|
                        0 <= i < head.len() && (#[trigger] head[i]).path == last.path && test(
                            head[i],
                        );
                    assert(paths(objects)[i] == paths(objects)[objects.len() - 1]);
                }
                assert forall|i: int, j: int|
                    0 <= i < chosen.len() && 0 <= j < chosen.len() && i != j implies chosen[i]
                    != chosen[j] by {
                    if i == chosen.len() - 1 {
                        assert(paths(kept)[j] == chosen[j]);
                    } else if j == chosen.len() - 1 {
                        assert(paths(kept)[i] == chosen[i]);
                    } else {
                        assert(paths(kept)[i] == chosen[i]);
                        assert(paths(kept)[j] == chosen[j]);
                    }
                }
            }
        }
    }
}

/// The children of a parent are exactly the paths of the objects that
/// implement the child interface and name the parent in their back-reference
/// property: every such path is listed, no other path is, and where the
/// enumeration holds no path twice, neither does the list.
pub proof fn children_are_exactly_the_owned(
    objects: Seq<RemoteObjectView>,
    interface: Seq<char>,
    back_reference: Seq<char>,
    parent: Seq<char>,
)
    ensures
        forall|p: Seq<char>| #[trigger]
            children(objects, interface, back_reference, parent).contains(p) <==> exists|i: int|
                0 <= i < objects.len() && (#[trigger] objects[i]).path == p && is_child(
                    objects[i],
                    interface,
                    back_reference,
                    parent,
                ),
        paths(objects).no_duplicates() ==> children(
            objects,
            interface,
            back_reference,
            parent,
        ).no_duplicates(),
        children(objects, interface, back_reference, parent).len() == objects.filter(
            owned_by(interface, back_reference, parent),
        ).len() <= objects.len(),
{
    let test = owned_by(interface, back_reference, parent);
    selection_is_exact(objects, test);
    objects.lemma_filter_len(test);
}

/// The objects of a kind are exactly the paths of the objects that implement
/// its interface, under the same terms as for children.
pub proof fn implementing_are_exactly_the_kind(
    objects: Seq<RemoteObjectView>,
    interface: Seq<char>,
)
    ensures
        forall|p: Seq<char>| #[trigger]
            implementing(objects, interface).contains(p) <==> exists|i: int|
                0 <= i < objects.len() && (#[trigger] objects[i]).path == p && implements(
                    objects[i],
                    interface,
                ),
        paths(objects).no_duplicates() ==> implementing(objects, interface).no_duplicates(),
        implementing(objects, interface).len() == objects.filter(of_kind(interface)).len()
            <= objects.len(),
{
    let test = of_kind(interface);
    selection_is_exact(objects, test);
    objects.lemma_filter_len(test);
}

/// Where no object implements the interface, the list of that kind is empty.
pub proof fn none_of_the_kind_is_empty(objects: Seq<RemoteObjectView>, interface: Seq<char>)
    requires
        forall|i: int| 0 <= i < objects.len() ==> !implements(#[trigger] objects[i], interface),
    ensures
        implementing(objects, interface) == Seq::<Seq<char>>::empty(),
{
    implementing_are_exactly_the_kind(objects, interface);
    let listed = implementing(objects, interface);
    if listed.len() > 0 {
        assert(listed.contains(listed[0]));
    }
    assert(listed =~= Seq::<Seq<char>>::empty());
}

} // verus!
