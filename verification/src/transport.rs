use vstd::prelude::*;
use vstd::string::StringExecFns;
use crate::errors::{content_of, failure, Error, ErrorKind, ErrorView};
use crate::text::same_text;
use crate::value::{contents, mismatch, type_mismatch, Value, ValueView};

verus! {

/// How long one round trip may block, in milliseconds.
pub const TIMEOUT_MS: u32 = 1000;

/// Which message bus a request travels on.
#[derive(Clone, Copy, Debug, PartialEq, Eq, Structural)]
pub enum BusKind {
    System,
    Session,
}

/// What a request asks of the remote object.
#[derive(Debug, PartialEq)]
pub enum Operation {
    /// Read the named property.
    Read(String),
    /// Write the named property.
    Write(String, Value),
    /// Invoke the named method with the given arguments.
    Invoke(String, Vec<Value>),
}

/// The content of an [`Operation`].
pub enum OperationView {
    Read(Seq<char>),
    Write(Seq<char>, ValueView),
    Invoke(Seq<char>, Seq<ValueView>),
}

impl View for Operation {
    type V = OperationView;

    open spec fn view(&self) -> OperationView {
        match self {
            Operation::Read(name) => OperationView::Read(name@),
            Operation::Write(name, value) => OperationView::Write(name@, value@),
            Operation::Invoke(method, args) => OperationView::Invoke(method@, contents(args@)),
        }
    }
}

/// One round trip to make: where it goes, what it asks, and how long it may
/// block.
#[derive(Debug, PartialEq)]
pub struct Request {
    pub bus: BusKind,
    pub service: String,
    pub path: String,
    pub interface: String,
    pub operation: Operation,
    pub timeout_ms: u32,
}

/// The content of a [`Request`].
pub struct RequestView {
    pub bus: BusKind,
    pub service: Seq<char>,
    pub path: Seq<char>,
    pub interface: Seq<char>,
    pub operation: OperationView,
    pub timeout_ms: u32,
}

impl View for Request {
    type V = RequestView;

    open spec fn view(&self) -> RequestView {
        RequestView {
            bus: self.bus,
            service: self.service@,
            path: self.path@,
            interface: self.interface@,
            operation: self.operation@,
            timeout_ms: self.timeout_ms,
        }
    }
}

/// How one round trip ended.
#[derive(Debug, PartialEq)]
pub enum Outcome {
    /// The remote side answered with these values.
    Reply(Vec<Value>),
    /// No connection to the bus could be made; the text says why.
    Unreachable(String),
    /// Nothing came back within the time bound.
    NoReply,
    /// The remote side answered with an error of this name and message.
    Refused { name: String, message: String },
}

/// The content of an [`Outcome`].
pub enum OutcomeView {
    Reply(Seq<ValueView>),
    Unreachable(Seq<char>),
    NoReply,
    Refused { name: Seq<char>, message: Seq<char> },
}

impl View for Outcome {
    type V = OutcomeView;

    open spec fn view(&self) -> OutcomeView {
        match self {
            Outcome::Reply(items) => OutcomeView::Reply(contents(items@)),
            Outcome::Unreachable(why) => OutcomeView::Unreachable(why@),
            Outcome::NoReply => OutcomeView::NoReply,
            Outcome::Refused { name, message } => OutcomeView::Refused {
                name: name@,
                message: message@,
            },
        }
    }
}

/// The way to the daemon: makes one blocking round trip per call, on a
/// connection of its own, and reports how it ended. Nothing is assumed of a
/// transport: what is proved of the code that calls one holds of every one.
pub trait Transport {
    fn round_trip(&self, request: &Request) -> Outcome;
}

/// The transport can end a round trip for this request with this outcome.
pub open spec fn answers<T: Transport>(
    transport: &T,
    request: RequestView,
    outcome: OutcomeView,
) -> bool {
    exists|req: Request, out: Outcome|
        req@ == request && out@ == outcome && call_ensures(T::round_trip, (transport, &req), out)
}

/// The request that reads a property.
pub open spec fn read_request(
    bus: BusKind,
    service: Seq<char>,
    path: Seq<char>,
    interface: Seq<char>,
    name: Seq<char>,
) -> RequestView {
    RequestView {
        bus,
        service,
        path,
        interface,
        operation: OperationView::Read(name),
        timeout_ms: TIMEOUT_MS,
    }
}

/// The request that writes a property.
pub open spec fn write_request(
    bus: BusKind,
    service: Seq<char>,
    path: Seq<char>,
    interface: Seq<char>,
    name: Seq<char>,
    value: ValueView,
) -> RequestView {
    RequestView {
        bus,
        service,
        path,
        interface,
        operation: OperationView::Write(name, value),
        timeout_ms: TIMEOUT_MS,
    }
}

/// The request that invokes a method.
pub open spec fn call_request(
    bus: BusKind,
    service: Seq<char>,
    path: Seq<char>,
    interface: Seq<char>,
    method: Seq<char>,
    args: Seq<ValueView>,
) -> RequestView {
    RequestView {
        bus,
        service,
        path,
        interface,
        operation: OperationView::Invoke(method, args),
        timeout_ms: TIMEOUT_MS,
    }
}

/// The class of a failure that the remote side reported under this name.
pub open spec fn kind_of_name(name: Seq<char>) -> ErrorKind {
    if name == "org.freedesktop.DBus.Error.UnknownProperty"@ || name
        == "org.freedesktop.DBus.Error.UnknownInterface"@ {
        ErrorKind::NoSuchProperty
    } else if name == "org.freedesktop.DBus.Error.UnknownMethod"@ {
        ErrorKind::NoSuchMethod
    } else if name == "org.freedesktop.DBus.Error.NoReply"@ || name
        == "org.freedesktop.DBus.Error.Timeout"@ || name == "org.freedesktop.DBus.Error.TimedOut"@ {
        ErrorKind::Timeout
    } else if name == "org.freedesktop.DBus.Error.ServiceUnknown"@ || name
        == "org.freedesktop.DBus.Error.NameHasNoOwner"@ || name
        == "org.freedesktop.DBus.Error.NoServer"@ || name
        == "org.freedesktop.DBus.Error.Disconnected"@ {
        ErrorKind::RemoteUnavailable
    } else {
        ErrorKind::RemoteRejected
    }
}

/// The failure that an outcome stands for, if it is one.
pub open spec fn failure_of(outcome: OutcomeView) -> Option<ErrorView> {
    match outcome {
        OutcomeView::Reply(_) => None,
        OutcomeView::Unreachable(why) => Some(failure(ErrorKind::RemoteUnavailable, why)),
        OutcomeView::NoReply => Some(
            failure(ErrorKind::Timeout, "no reply within the time bound"@),
        ),
        OutcomeView::Refused { name, message } => Some(failure(kind_of_name(name), message)),
    }
}

/// The values of a reply, or the failure.
pub open spec fn reply_items(outcome: OutcomeView) -> Result<Seq<ValueView>, ErrorView> {
    match outcome {
        OutcomeView::Reply(items) => Ok(items),
        _ => Err(failure_of(outcome)->Some_0),
    }
}

/// The first value of a reply; a reply without values is a type mismatch.
pub open spec fn reply_value(outcome: OutcomeView) -> Result<ValueView, ErrorView> {
    match outcome {
        OutcomeView::Reply(items) => if items.len() > 0 {
            Ok(items[0])
        } else {
            Err(mismatch())
        },
        _ => Err(failure_of(outcome)->Some_0),
    }
}

/// Success for any reply, whatever it carries, or the failure.
pub open spec fn reply_unit(outcome: OutcomeView) -> Result<(), ErrorView> {
    match outcome {
        OutcomeView::Reply(_) => Ok(()),
        _ => Err(failure_of(outcome)->Some_0),
    }
}

/// Sorts a failure that the remote side reported by its name.
pub fn classify(name: &str) -> (kind: ErrorKind)
    ensures
        kind == kind_of_name(name@),
{
    if same_text(name, "org.freedesktop.DBus.Error.UnknownProperty") || same_text(
        name,
        "org.freedesktop.DBus.Error.UnknownInterface",
    ) {
        ErrorKind::NoSuchProperty
    } else if same_text(name, "org.freedesktop.DBus.Error.UnknownMethod") {
        ErrorKind::NoSuchMethod
    } else if same_text(name, "org.freedesktop.DBus.Error.NoReply") || same_text(
        name,
        "org.freedesktop.DBus.Error.Timeout",
    ) || same_text(name, "org.freedesktop.DBus.Error.TimedOut") {
        ErrorKind::Timeout
    } else if same_text(name, "org.freedesktop.DBus.Error.ServiceUnknown") || same_text(
        name,
        "org.freedesktop.DBus.Error.NameHasNoOwner",
    ) || same_text(name, "org.freedesktop.DBus.Error.NoServer") || same_text(
        name,
        "org.freedesktop.DBus.Error.Disconnected",
    ) {
        ErrorKind::RemoteUnavailable
    } else {
        ErrorKind::RemoteRejected
    }
}

impl Outcome {
    /// The values of a reply, or the failure that this outcome stands for.
    pub fn into_items(self) -> (r: Result<Vec<Value>, Error>)
        ensures
            content_of(r) == reply_items(self@),
    {
        match self {
            Outcome::Reply(items) => {
                assert(items.deep_view() =~= contents(items@));
                Ok(items)
            },
            Outcome::Unreachable(why) => Err(
                Error { kind: ErrorKind::RemoteUnavailable, message: why },
            ),
            Outcome::NoReply => Err(
                Error::new(ErrorKind::Timeout, "no reply within the time bound"),
            ),
            Outcome::Refused { name, message } => {
                let kind = classify(name.as_str());
                Err(Error { kind, message })
            },
        }
    }

    /// The first value of a reply, or the failure.
    pub fn into_value(self) -> (r: Result<Value, Error>)
        ensures
            content_of(r) == reply_value(self@),
    {
        match self.into_items() {
            Ok(items) => {
                if items.len() > 0 {
                    Ok(items[0].duplicate())
                } else {
                    Err(type_mismatch())
                }
            },
            Err(e) => Err(e),
        }
    }

    /// Success for any reply, or the failure.
    pub fn into_unit(self) -> (r: Result<(), Error>)
        ensures
            content_of(r) == reply_unit(self@),
    {
        match self.into_items() {
            Ok(_) => Ok(()),
            Err(e) => Err(e),
        }
    }
}

/// A round trip for this request can end in this result, read as the values
/// of the reply.
pub open spec fn yields_items<T: Transport>(
    transport: &T,
    request: RequestView,
    result: Result<Seq<ValueView>, ErrorView>,
) -> bool {
    exists|o: OutcomeView| answers(transport, request, o) && result == reply_items(o)
}

/// A round trip for this request can end in this result, read as the first
/// value of the reply.
pub open spec fn yields_value<T: Transport>(
    transport: &T,
    request: RequestView,
    result: Result<ValueView, ErrorView>,
) -> bool {
    exists|o: OutcomeView| answers(transport, request, o) && result == reply_value(o)
}

/// A round trip for this request can end in this result, read as success or
/// failure alone.
pub open spec fn yields_unit<T: Transport>(
    transport: &T,
    request: RequestView,
    result: Result<(), ErrorView>,
) -> bool {
    exists|o: OutcomeView| answers(transport, request, o) && result == reply_unit(o)
}

/// Makes the round trip and hands back the values of the reply.
pub fn send_for_items<T: Transport>(transport: &T, request: &Request) -> (r: Result<
    Vec<Value>,
    Error,
>)
    ensures
        yields_items(transport, request@, content_of(r)),
{
    let outcome = transport.round_trip(request);
    assert(answers(transport, request@, outcome@));
    outcome.into_items()
}

/// Makes the round trip and hands back the first value of the reply.
pub fn send_for_value<T: Transport>(transport: &T, request: &Request) -> (r: Result<Value, Error>)
    ensures
        yields_value(transport, request@, content_of(r)),
{
    let outcome = transport.round_trip(request);
    assert(answers(transport, request@, outcome@));
    outcome.into_value()
}

/// Makes the round trip and reports whether it succeeded.
pub fn send<T: Transport>(transport: &T, request: &Request) -> (r: Result<(), Error>)
    ensures
        yields_unit(transport, request@, content_of(r)),
{
    let outcome = transport.round_trip(request);
    assert(answers(transport, request@, outcome@));
    outcome.into_unit()
}

/// A transport that never replies within the bound makes every round trip
/// fail with a timeout, whatever is asked and however the reply would have
/// been read.
pub proof fn silence_is_timeout<T: Transport>(transport: &T, request: RequestView)
    requires
        forall|o: OutcomeView| answers(transport, request, o) ==> o == OutcomeView::NoReply,
    ensures
        forall|r: Result<Seq<ValueView>, ErrorView>| #[trigger]
            yields_items(transport, request, r) ==> r is Err && r->Err_0.kind
                == ErrorKind::Timeout,
        forall|r: Result<ValueView, ErrorView>| #[trigger]
            yields_value(transport, request, r) ==> r is Err && r->Err_0.kind
                == ErrorKind::Timeout,
        forall|r: Result<(), ErrorView>| #[trigger]
            yields_unit(transport, request, r) ==> r is Err && r->Err_0.kind == ErrorKind::Timeout,
{
}

/// A round trip fails only where the transport reports a failure: every
/// reply is a success for a request that returns nothing, and the failure
/// that comes back is the one that the outcome stands for.
pub proof fn fails_only_remotely<T: Transport>(
    transport: &T,
    request: RequestView,
    result: Result<(), ErrorView>,
)
    requires
        yields_unit(transport, request, result),
    ensures
        result is Err ==> exists|o: OutcomeView|
            answers(transport, request, o) && !(o is Reply) && failure_of(o) == Some(
                result->Err_0,
            ),
        result is Ok ==> exists|o: OutcomeView| answers(transport, request, o) && o is Reply,
{
    let o = choose|o: OutcomeView| answers(transport, request, o) && result == reply_unit(o);
    assert(answers(transport, request, o));
}

impl Request {
    /// The request that reads a property.
    pub fn read(bus: BusKind, service: &str, path: &str, interface: &str, name: &str) -> (r:
        Request)
        ensures
            r@ == read_request(bus, service@, path@, interface@, name@),
    {
        Request {
            bus,
            service: String::from_str(service),
            path: String::from_str(path),
            interface: String::from_str(interface),
            operation: Operation::Read(String::from_str(name)),
            timeout_ms: TIMEOUT_MS,
        }
    }

    /// The request that writes a property.
    pub fn write(
        bus: BusKind,
        service: &str,
        path: &str,
        interface: &str,
        name: &str,
        value: Value,
    ) -> (r: Request)
        ensures
            r@ == write_request(bus, service@, path@, interface@, name@, value@),
    {
        Request {
            bus,
            service: String::from_str(service),
            path: String::from_str(path),
            interface: String::from_str(interface),
            operation: Operation::Write(String::from_str(name), value),
            timeout_ms: TIMEOUT_MS,
        }
    }

    /// The request that invokes a method.
    pub fn call(
        bus: BusKind,
        service: &str,
        path: &str,
        interface: &str,
        method: &str,
        args: Vec<Value>,
    ) -> (r: Request)
        ensures
            r@ == call_request(bus, service@, path@, interface@, method@, contents(args@)),
    {
        Request {
            bus,
            service: String::from_str(service),
            path: String::from_str(path),
            interface: String::from_str(interface),
            operation: Operation::Invoke(String::from_str(method), args),
            timeout_ms: TIMEOUT_MS,
        }
    }
}

} // verus!
