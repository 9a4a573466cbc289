use vstd::prelude::*;
use vstd::string::StringExecFns;
use crate::errors::{content_of, Error, ErrorView};
use crate::transport::{yields_value, RequestView, Transport};
use crate::value::{
    bool_of, bytes_of, i16_of, path_of, required, text_of, texts_of, type_mismatch, u16_of,
    u32_of, Value, ValueView,
};

verus! {

/// An answer narrowed to a boolean: a value of another shape is a type
/// mismatch, and a failure stays what it is.
pub open spec fn bool_in(answer: Result<ValueView, ErrorView>) -> Result<bool, ErrorView> {
    match answer {
        Ok(v) => required(bool_of(v)),
        Err(e) => Err(e),
    }
}

/// An answer narrowed to a signed 16-bit number.
pub open spec fn i16_in(answer: Result<ValueView, ErrorView>) -> Result<i16, ErrorView> {
    match answer {
        Ok(v) => required(i16_of(v)),
        Err(e) => Err(e),
    }
}

/// An answer narrowed to an unsigned 16-bit number.
pub open spec fn u16_in(answer: Result<ValueView, ErrorView>) -> Result<u16, ErrorView> {
    match answer {
        Ok(v) => required(u16_of(v)),
        Err(e) => Err(e),
    }
}

/// An answer narrowed to an unsigned 32-bit number.
pub open spec fn u32_in(answer: Result<ValueView, ErrorView>) -> Result<u32, ErrorView> {
    match answer {
        Ok(v) => required(u32_of(v)),
        Err(e) => Err(e),
    }
}

/// An answer narrowed to the text of a string or an object path.
pub open spec fn text_in(answer: Result<ValueView, ErrorView>) -> Result<Seq<char>, ErrorView> {
    match answer {
        Ok(v) => required(text_of(v)),
        Err(e) => Err(e),
    }
}

/// An answer narrowed to the text of an object path.
pub open spec fn path_in(answer: Result<ValueView, ErrorView>) -> Result<Seq<char>, ErrorView> {
    match answer {
        Ok(v) => required(path_of(v)),
        Err(e) => Err(e),
    }
}

/// An answer narrowed to the bytes of an array of bytes.
pub open spec fn bytes_in(answer: Result<ValueView, ErrorView>) -> Result<Seq<u8>, ErrorView> {
    match answer {
        Ok(v) => required(bytes_of(v)),
        Err(e) => Err(e),
    }
}

/// An answer narrowed to the texts of an array of strings.
pub open spec fn texts_in(answer: Result<ValueView, ErrorView>) -> Result<
    Seq<Seq<char>>,
    ErrorView,
> {
    match answer {
        Ok(v) => required(texts_of(v)),
        Err(e) => Err(e),
    }
}

/// A round trip for the request can end in this boolean or failure.
pub open spec fn reads_bool<T: Transport>(
    transport: &T,
    request: RequestView,
    result: Result<bool, ErrorView>,
) -> bool {
    exists|answer: Result<ValueView, ErrorView>|
        yields_value(transport, request, answer) && result == bool_in(answer)
}

/// A round trip for the request can end in this number or failure.
pub open spec fn reads_i16<T: Transport>(
    transport: &T,
    request: RequestView,
    result: Result<i16, ErrorView>,
) -> bool {
    exists|answer: Result<ValueView, ErrorView>|
        yields_value(transport, request, answer) && result == i16_in(answer)
}

/// A round trip for the request can end in this number or failure.
pub open spec fn reads_u16<T: Transport>(
    transport: &T,
    request: RequestView,
    result: Result<u16, ErrorView>,
) -> bool {
    exists|answer: Result<ValueView, ErrorView>|
        yields_value(transport, request, answer) && result == u16_in(answer)
}

/// A round trip for the request can end in this number or failure.
pub open spec fn reads_u32<T: Transport>(
    transport: &T,
    request: RequestView,
    result: Result<u32, ErrorView>,
) -> bool {
    exists|answer: Result<ValueView, ErrorView>|
        yields_value(transport, request, answer) && result == u32_in(answer)
}

/// A round trip for the request can end in this text or failure.
pub open spec fn reads_text<T: Transport>(
    transport: &T,
    request: RequestView,
    result: Result<Seq<char>, ErrorView>,
) -> bool {
    exists|answer: Result<ValueView, ErrorView>|
        yields_value(transport, request, answer) && result == text_in(answer)
}

/// A round trip for the request can end in this object path or failure.
pub open spec fn reads_path<T: Transport>(
    transport: &T,
    request: RequestView,
    result: Result<Seq<char>, ErrorView>,
) -> bool {
    exists|answer: Result<ValueView, ErrorView>|
        yields_value(transport, request, answer) && result == path_in(answer)
}

/// A round trip for the request can end in these bytes or failure.
pub open spec fn reads_bytes<T: Transport>(
    transport: &T,
    request: RequestView,
    result: Result<Seq<u8>, ErrorView>,
) -> bool {
    exists|answer: Result<ValueView, ErrorView>|
        yields_value(transport, request, answer) && result == bytes_in(answer)
}

/// A round trip for the request can end in these texts or failure.
pub open spec fn reads_texts<T: Transport>(
    transport: &T,
    request: RequestView,
    result: Result<Seq<Seq<char>>, ErrorView>,
) -> bool {
    exists|answer: Result<ValueView, ErrorView>|
        yields_value(transport, request, answer) && result == texts_in(answer)
}

/// Narrows an answer to a boolean.
pub fn expect_bool(answer: Result<Value, Error>) -> (r: Result<bool, Error>)
    ensures
        content_of(r) == bool_in(content_of(answer)),
{
    match answer {
        Ok(v) => match v.as_bool() {
            Some(b) => Ok(b),
            None => Err(type_mismatch()),
        },
        Err(e) => Err(e),
    }
}

/// Narrows an answer to a signed 16-bit number.
pub fn expect_i16(answer: Result<Value, Error>) -> (r: Result<i16, Error>)
    ensures
        content_of(r) == i16_in(content_of(answer)),
{
    match answer {
        Ok(v) => match v.as_i16() {
            Some(n) => Ok(n),
            None => Err(type_mismatch()),
        },
        Err(e) => Err(e),
    }
}

/// Narrows an answer to an unsigned 16-bit number.
pub fn expect_u16(answer: Result<Value, Error>) -> (r: Result<u16, Error>)
    ensures
        content_of(r) == u16_in(content_of(answer)),
{
    match answer {
        Ok(v) => match v.as_u16() {
            Some(n) => Ok(n),
            None => Err(type_mismatch()),
        },
        Err(e) => Err(e),
    }
}

/// Narrows an answer to an unsigned 32-bit number.
pub fn expect_u32(answer: Result<Value, Error>) -> (r: Result<u32, Error>)
    ensures
        content_of(r) == u32_in(content_of(answer)),
{
    match answer {
        Ok(v) => match v.as_u32() {
            Some(n) => Ok(n),
            None => Err(type_mismatch()),
        },
        Err(e) => Err(e),
    }
}

/// Narrows an answer to the text of a string or an object path.
pub fn expect_text(answer: Result<Value, Error>) -> (r: Result<String, Error>)
    ensures
        content_of(r) == text_in(content_of(answer)),
{
    match answer {
        Ok(v) => match v.as_text() {
            Some(t) => Ok(String::from_str(t)),
            None => Err(type_mismatch()),
        },
        Err(e) => Err(e),
    }
}

/// Narrows an answer to the text of an object path.
pub fn expect_path(answer: Result<Value, Error>) -> (r: Result<String, Error>)
    ensures
        content_of(r) == path_in(content_of(answer)),
{
    match answer {
        Ok(v) => match v.as_object_path() {
            Some(t) => Ok(String::from_str(t)),
            None => Err(type_mismatch()),
        },
        Err(e) => Err(e),
    }
}

/// Narrows an answer to the bytes of an array of bytes.
pub fn expect_bytes(answer: Result<Value, Error>) -> (r: Result<Vec<u8>, Error>)
    ensures
        content_of(r) == bytes_in(content_of(answer)),
{
    match answer {
        Ok(v) => match v.as_bytes() {
            Some(b) => Ok(b),
            None => Err(type_mismatch()),
        },
        Err(e) => Err(e),
    }
}

/// Narrows an answer to the texts of an array of strings.
pub fn expect_texts(answer: Result<Value, Error>) -> (r: Result<Vec<String>, Error>)
    ensures
        content_of(r) == texts_in(content_of(answer)),
{
    match answer {
        Ok(v) => match v.as_texts() {
            Some(t) => Ok(t),
            None => Err(type_mismatch()),
        },
        Err(e) => Err(e),
    }
}

} // verus!
