use vstd::prelude::*;
use vstd::string::StringExecFns;
use crate::errors::{failure, Error, ErrorKind, ErrorView};

verus! {

/// One value as it travels over the bus: a scalar, a string, or a container
/// of further values.
#[derive(Debug, PartialEq)]
pub enum Value {
    Bool(bool),
    Byte(u8),
    Int16(i16),
    UInt16(u16),
    Int32(i32),
    UInt32(u32),
    Str(String),
    ObjectPath(String),
    /// An ordered sequence, with the signature of one element.
    Array(Vec<Value>, String),
    /// One key and its value; a mapping is an array of these.
    DictEntry(Box<Value>, Box<Value>),
    /// A value that carries its own type.
    Variant(Box<Value>),
    /// A value of a type that this library does not read, with its
    /// signature. It narrows to nothing.
    Other(String),
}

/// The mathematical content of a [`Value`].
pub enum ValueView {
    Bool(bool),
    Byte(u8),
    Int16(i16),
    UInt16(u16),
    Int32(i32),
    UInt32(u32),
    Str(Seq<char>),
    ObjectPath(Seq<char>),
    Array(Seq<ValueView>, Seq<char>),
    DictEntry(Box<ValueView>, Box<ValueView>),
    Variant(Box<ValueView>),
    Other(Seq<char>),
}

/// The content of a value, by recursion over its structure.
pub open spec fn content(value: Value) -> ValueView
    decreases value,
{
    match value {
        Value::Bool(b) => ValueView::Bool(b),
        Value::Byte(b) => ValueView::Byte(b),
        Value::Int16(n) => ValueView::Int16(n),
        Value::UInt16(n) => ValueView::UInt16(n),
        Value::Int32(n) => ValueView::Int32(n),
        Value::UInt32(n) => ValueView::UInt32(n),
        Value::Str(s) => ValueView::Str(s@),
        Value::ObjectPath(s) => ValueView::ObjectPath(s@),
        Value::Array(items, signature) => ValueView::Array(
            Seq::new(
                items.len() as nat,
                |i: int|
                    if 0 <= i < items.len() {
                        content(items[i])
                    } else {
                        ValueView::Bool(false)
                    },
            ),
            signature@,
        ),
        Value::DictEntry(key, value) => ValueView::DictEntry(
            Box::new(content(*key)),
            Box::new(content(*value)),
        ),
        Value::Variant(inner) => ValueView::Variant(Box::new(content(*inner))),
        Value::Other(signature) => ValueView::Other(signature@),
    }
}

impl View for Value {
    type V = ValueView;

    open spec fn view(&self) -> ValueView {
        content(*self)
    }
}

impl DeepView for Value {
    type V = ValueView;

    open spec fn deep_view(&self) -> ValueView {
        content(*self)
    }
}

/// The contents of a sequence of values, item by item.
pub open spec fn contents(items: Seq<Value>) -> Seq<ValueView> {
    Seq::new(items.len(), |i: int| items[i]@)
}

/// The content of an array is the contents of its items.
pub proof fn array_content(items: Vec<Value>, signature: String)
    ensures
        Value::Array(items, signature)@ == ValueView::Array(contents(items@), signature@),
{
    assert(Value::Array(items, signature)@->Array_0 =~= contents(items@));
}

/// The message of every failed narrowing.
pub open spec fn mismatch() -> ErrorView {
    failure(ErrorKind::TypeMismatch, "unexpected value type"@)
}

/// A narrowing that found its shape succeeds; one that did not is a type
/// mismatch.
pub open spec fn required<T>(found: Option<T>) -> Result<T, ErrorView> {
    match found {
        Some(t) => Ok(t),
        None => Err(mismatch()),
    }
}

pub open spec fn bool_of(v: ValueView) -> Option<bool> {
    match v {
        ValueView::Bool(b) => Some(b),
        _ => None,
    }
}

pub open spec fn byte_of(v: ValueView) -> Option<u8> {
    match v {
        ValueView::Byte(b) => Some(b),
        _ => None,
    }
}

pub open spec fn i16_of(v: ValueView) -> Option<i16> {
    match v {
        ValueView::Int16(n) => Some(n),
        _ => None,
    }
}

pub open spec fn u16_of(v: ValueView) -> Option<u16> {
    match v {
        ValueView::UInt16(n) => Some(n),
        _ => None,
    }
}

pub open spec fn i32_of(v: ValueView) -> Option<i32> {
    match v {
        ValueView::Int32(n) => Some(n),
        _ => None,
    }
}

pub open spec fn u32_of(v: ValueView) -> Option<u32> {
    match v {
        ValueView::UInt32(n) => Some(n),
        _ => None,
    }
}

/// A string and an object path both narrow to their text.
pub open spec fn text_of(v: ValueView) -> Option<Seq<char>> {
    match v {
        ValueView::Str(s) => Some(s),
        ValueView::ObjectPath(s) => Some(s),
        _ => None,
    }
}

/// An object path narrows to its text; a plain string does not.
pub open spec fn path_of(v: ValueView) -> Option<Seq<char>> {
    match v {
        ValueView::ObjectPath(s) => Some(s),
        _ => None,
    }
}

pub open spec fn items_of(v: ValueView) -> Option<Seq<ValueView>> {
    match v {
        ValueView::Array(items, _) => Some(items),
        _ => None,
    }
}

pub open spec fn entry_of(v: ValueView) -> Option<(ValueView, ValueView)> {
    match v {
        ValueView::DictEntry(key, value) => Some((*key, *value)),
        _ => None,
    }
}

pub open spec fn inner_of(v: ValueView) -> Option<ValueView> {
    match v {
        ValueView::Variant(inner) => Some(*inner),
        _ => None,
    }
}

/// An array narrows to bytes when every item is a byte.
pub open spec fn bytes_of(v: ValueView) -> Option<Seq<u8>> {
    match v {
        ValueView::Array(items, _) => if forall|i: int|
            0 <= i < items.len() ==> #[trigger] byte_of(items[i]) is Some {
            Some(Seq::new(items.len(), |i: int| byte_of(items[i])->Some_0))
        } else {
            None
        },
        _ => None,
    }
}

/// An array narrows to texts when every item is a string or an object path.
pub open spec fn texts_of(v: ValueView) -> Option<Seq<Seq<char>>> {
    match v {
        ValueView::Array(items, _) => if forall|i: int|
            0 <= i < items.len() ==> #[trigger] text_of(items[i]) is Some {
            Some(Seq::new(items.len(), |i: int| text_of(items[i])->Some_0))
        } else {
            None
        },
        _ => None,
    }
}

/// The array of the given bytes.
pub open spec fn byte_array(bytes: Seq<u8>) -> ValueView {
    ValueView::Array(Seq::new(bytes.len(), |i: int| ValueView::Byte(bytes[i])), "y"@)
}

/// The array of the given strings.
pub open spec fn text_array(texts: Seq<Seq<char>>) -> ValueView {
    ValueView::Array(Seq::new(texts.len(), |i: int| ValueView::Str(texts[i])), "s"@)
}

/// The dictionary entry that gives a name a value, wrapped in a variant.
pub open spec fn named(name: Seq<char>, value: ValueView) -> ValueView {
    ValueView::DictEntry(
        Box::new(ValueView::Str(name)),
        Box::new(ValueView::Variant(Box::new(value))),
    )
}

/// The dictionary from names to variants that holds the given entries.
pub open spec fn dictionary(entries: Seq<ValueView>) -> ValueView {
    ValueView::Array(entries, "{sv}"@)
}

/// The options of a read or a write: the offset where one is given.
pub open spec fn offset_options(offset: Option<u16>) -> ValueView {
    match offset {
        Some(o) => dictionary(seq![named("offset"@, ValueView::UInt16(o))]),
        None => dictionary(Seq::empty()),
    }
}

/// The error of a narrowing that failed.
pub fn type_mismatch() -> (e: Error)
    ensures
        e@ == mismatch(),
{
    Error::new(ErrorKind::TypeMismatch, "unexpected value type")
}

impl Value {
    /// A copy with the same content.
    pub fn duplicate(&self) -> (copy: Value)
        ensures
            copy@ == self@,
        decreases self,
    {
        match self {
            Value::Bool(b) => Value::Bool(*b),
            Value::Byte(b) => Value::Byte(*b),
            Value::Int16(n) => Value::Int16(*n),
            Value::UInt16(n) => Value::UInt16(*n),
            Value::Int32(n) => Value::Int32(*n),
            Value::UInt32(n) => Value::UInt32(*n),
            Value::Str(s) => Value::Str(s.clone()),
            Value::ObjectPath(s) => Value::ObjectPath(s.clone()),
            Value::Array(items, signature) => {
                let mut copies: Vec<Value> = Vec::new();
                let mut i: usize = 0;
                while i < items.len()
                    invariant
                        i <= items.len(),
                        copies.len() == i,
                        self == Value::Array(*items, *signature),
                        forall|j: int| 0 <= j < i ==> copies[j]@ == items[j]@,
                    decreases items.len() - i,
                {
                    proof {
                        vstd::std_specs::vec::axiom_vec_index_decreases(*items, i as int);
                        assert(self->Array_0 == *items);
                    }
                    let copy = items[i].duplicate();
                    copies.push(copy);
                    i += 1;
                }
                let sig = signature.clone();
                proof {
                    array_content(*items, *signature);
                    array_content(copies, sig);
                    assert(contents(copies@) =~= contents(items@));
                }
                Value::Array(copies, sig)
            },
            Value::DictEntry(key, value) => Value::DictEntry(
                Box::new(key.duplicate()),
                Box::new(value.duplicate()),
            ),
            Value::Variant(inner) => Value::Variant(Box::new(inner.duplicate())),
            Value::Other(signature) => Value::Other(signature.clone()),
        }
    }

    /// A string value.
    pub fn text(s: &str) -> (v: Value)
        ensures
            v@ == ValueView::Str(s@),
    {
        Value::Str(String::from_str(s))
    }

    /// An object path value.
    pub fn object_path(s: &str) -> (v: Value)
        ensures
            v@ == ValueView::ObjectPath(s@),
    {
        Value::ObjectPath(String::from_str(s))
    }

    pub fn as_bool(&self) -> (r: Option<bool>)
        ensures
            r == bool_of(self@),
    {
        match self {
            Value::Bool(b) => Some(*b),
            _ => None,
        }
    }

    pub fn as_byte(&self) -> (r: Option<u8>)
        ensures
            r == byte_of(self@),
    {
        match self {
            Value::Byte(b) => Some(*b),
            _ => None,
        }
    }

    pub fn as_i16(&self) -> (r: Option<i16>)
        ensures
            r == i16_of(self@),
    {
        match self {
            Value::Int16(n) => Some(*n),
            _ => None,
        }
    }

    pub fn as_u16(&self) -> (r: Option<u16>)
        ensures
            r == u16_of(self@),
    {
        match self {
            Value::UInt16(n) => Some(*n),
            _ => None,
        }
    }

    pub fn as_i32(&self) -> (r: Option<i32>)
        ensures
            r == i32_of(self@),
    {
        match self {
            Value::Int32(n) => Some(*n),
            _ => None,
        }
    }

    pub fn as_u32(&self) -> (r: Option<u32>)
        ensures
            r == u32_of(self@),
    {
        match self {
            Value::UInt32(n) => Some(*n),
            _ => None,
        }
    }

    /// The text of a string or of an object path.
    pub fn as_text(&self) -> (r: Option<&str>)
        ensures
            r.deep_view() == text_of(self@),
    {
        match self {
            Value::Str(s) => Some(s.as_str()),
            Value::ObjectPath(s) => Some(s.as_str()),
            _ => None,
        }
    }

    /// The text of an object path.
    pub fn as_object_path(&self) -> (r: Option<&str>)
        ensures
            r.deep_view() == path_of(self@),
    {
        match self {
            Value::ObjectPath(s) => Some(s.as_str()),
            _ => None,
        }
    }

    /// The items of an array.
    pub fn as_items(&self) -> (r: Option<&Vec<Value>>)
        ensures
            r.deep_view() == items_of(self@),
    {
        match self {
            Value::Array(items, signature) => {
                proof {
                    array_content(*items, *signature);
                    assert(items.deep_view() =~= contents(items@));
                }
                Some(items)
            },
            _ => None,
        }
    }

    /// The key and the value of a dictionary entry.
    pub fn as_entry(&self) -> (r: Option<(&Value, &Value)>)
        ensures
            r.deep_view() == entry_of(self@),
    {
        match self {
            Value::DictEntry(key, value) => Some((&**key, &**value)),
            _ => None,
        }
    }

    /// The bytes of an array of bytes.
    pub fn as_bytes(&self) -> (r: Option<Vec<u8>>)
        ensures
            r.deep_view() == bytes_of(self@),
    {
        match self {
            Value::Array(items, signature) => {
                proof {
                    array_content(*items, *signature);
                }
                let ghost views = contents(items@);
                let mut bytes: Vec<u8> = Vec::new();
                let mut i: usize = 0;
                while i < items.len()
                    invariant
                        i <= items.len(),
                        bytes.len() == i,
                        views == contents(items@),
                        self@ == ValueView::Array(views, signature@),
                        forall|j: int| 0 <= j < i ==> byte_of(#[trigger] views[j]) == Some(bytes[j]),
                    decreases items.len() - i,
                {
                    match items[i].as_byte() {
                        Some(b) => bytes.push(b),
                        None => {
                            assert(byte_of(views[i as int]) is None);
                            return None;
                        },
                    }
                    i += 1;
                }
                assert(bytes.deep_view() =~= bytes_of(self@)->Some_0);
                Some(bytes)
            },
            _ => None,
        }
    }

    /// The texts of an array of strings or object paths.
    pub fn as_texts(&self) -> (r: Option<Vec<String>>)
        ensures
            r.deep_view() == texts_of(self@),
    {
        match self {
            Value::Array(items, signature) => {
                proof {
                    array_content(*items, *signature);
                }
                let ghost views = contents(items@);
                let mut texts: Vec<String> = Vec::new();
                let mut i: usize = 0;
                while i < items.len()
                    invariant
                        i <= items.len(),
                        texts.len() == i,
                        views == contents(items@),
                        self@ == ValueView::Array(views, signature@),
                        forall|j: int| 0 <= j < i ==> text_of(#[trigger] views[j]) == Some(texts[j]@),
                    decreases items.len() - i,
                {
                    match items[i].as_text() {
                        Some(t) => texts.push(String::from_str(t)),
                        None => {
                            assert(text_of(views[i as int]) is None);
                            return None;
                        },
                    }
                    i += 1;
                }
                assert(texts.deep_view() =~= texts_of(self@)->Some_0);
                Some(texts)
            },
            _ => None,
        }
    }

    /// An array of bytes.
    pub fn bytes(bytes: &Vec<u8>) -> (v: Value)
        ensures
            v@ == byte_array(bytes@),
    {
        let mut items: Vec<Value> = Vec::new();
        let mut i: usize = 0;
        while i < bytes.len()
            invariant
                i <= bytes.len(),
                items.len() == i,
                forall|j: int| 0 <= j < i ==> items[j]@ == ValueView::Byte(bytes@[j]),
            decreases bytes.len() - i,
        {
            items.push(Value::Byte(bytes[i]));
            i += 1;
        }
        let signature = String::from_str("y");
        proof {
            array_content(items, signature);
            assert(contents(items@) =~= Seq::new(bytes@.len(), |i: int| ValueView::Byte(bytes@[i])));
        }
        Value::Array(items, signature)
    }

    /// An array of strings.
    pub fn texts(texts: &Vec<String>) -> (v: Value)
        ensures
            v@ == text_array(texts.deep_view()),
    {
        let mut items: Vec<Value> = Vec::new();
        let mut i: usize = 0;
        while i < texts.len()
            invariant
                i <= texts.len(),
                items.len() == i,
                forall|j: int| 0 <= j < i ==> items[j]@ == ValueView::Str(texts@[j]@),
            decreases texts.len() - i,
        {
            items.push(Value::Str(texts[i].clone()));
            i += 1;
        }
        let signature = String::from_str("s");
        proof {
            array_content(items, signature);
            assert(contents(items@) =~= Seq::new(
                texts.deep_view().len(),
                |i: int| ValueView::Str(texts.deep_view()[i]),
            ));
        }
        Value::Array(items, signature)
    }

    /// The dictionary entry that gives a name a value, wrapped in a variant.
    pub fn named(name: &str, value: Value) -> (v: Value)
        ensures
            v@ == named(name@, value@),
    {
        let key = Value::text(name);
        let wrapped = Value::Variant(Box::new(value));
        assert(wrapped@ == ValueView::Variant(Box::new(value@)));
        Value::DictEntry(Box::new(key), Box::new(wrapped))
    }

    /// The dictionary from names to variants that holds the given entries.
    pub fn dictionary(entries: Vec<Value>) -> (v: Value)
        ensures
            v@ == dictionary(contents(entries@)),
    {
        let signature = String::from_str("{sv}");
        proof {
            array_content(entries, signature);
        }
        Value::Array(entries, signature)
    }

    /// The options of a read or a write: the offset where one is given.
    pub fn offset_options(offset: Option<u16>) -> (v: Value)
        ensures
            v@ == offset_options(offset),
    {
        let mut entries: Vec<Value> = Vec::new();
        match offset {
            Some(o) => {
                entries.push(Value::named("offset", Value::UInt16(o)));
                assert(contents(entries@) =~= seq![named("offset"@, ValueView::UInt16(o))]);
            },
            None => {
                assert(contents(entries@) =~= Seq::<ValueView>::empty());
            },
        }
        Value::dictionary(entries)
    }

    /// What a variant wraps.
    pub fn as_inner(&self) -> (r: Option<&Value>)
        ensures
            r.deep_view() == inner_of(self@),
    {
        match self {
            Value::Variant(inner) => Some(&**inner),
            _ => None,
        }
    }
}

} // verus!
