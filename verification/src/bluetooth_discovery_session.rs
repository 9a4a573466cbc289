use vstd::prelude::*;
use crate::bluetooth_utils::{arguments, ADAPTER_INTERFACE, SERVICE_NAME};
use crate::errors::{content_of, Error, ErrorView};
use crate::transport::{
    answers, call_request, failure_of, fails_only_remotely, send, yields_unit, BusKind,
    OutcomeView, Request, RequestView, Transport,
};
use crate::value::{contents, dictionary, named, text_array, Value, ValueView};

verus! {

/// One bracket of discovery on one adapter: it holds the adapter's path and
/// the transport on which it speaks, and nothing else. Starting and stopping
/// leave it unchanged.
pub struct BluetoothDiscoverySession<'a, T: Transport> {
    adapter: String,
    session: &'a T,
}

/// The filter dictionary: the service UUIDs always, the signal strength and
/// the path loss where they are given, in this order.
pub open spec fn discovery_filter(
    uuids: Seq<Seq<char>>,
    rssi: Option<i16>,
    pathloss: Option<u16>,
) -> ValueView {
    dictionary(
        seq![named("UUIDs"@, text_array(uuids))] + (match rssi {
            Some(r) => seq![named("RSSI"@, ValueView::Int16(r))],
            None => Seq::empty(),
        }) + (match pathloss {
            Some(p) => seq![named("Pathloss"@, ValueView::UInt16(p))],
            None => Seq::empty(),
        }),
    )
}

impl<'a, T: Transport> BluetoothDiscoverySession<'a, T> {
    /// The path of the adapter that the session is scoped to.
    pub closed spec fn adapter(&self) -> Seq<char> {
        self.adapter@
    }

    /// The transport on which the session speaks.
    pub closed spec fn transport(&self) -> &'a T {
        self.session
    }

    /// The request that invokes a method of the adapter.
    pub open spec fn call(&self, method: Seq<char>, args: Seq<ValueView>) -> RequestView {
        call_request(
            BusKind::System,
            SERVICE_NAME@,
            self.adapter(),
            ADAPTER_INTERFACE@,
            method,
            args,
        )
    }

    /// Makes a session for the adapter. Nothing is sent: the session is made
    /// locally and always comes about.
    pub fn create_session(session: &'a T, adapter: String) -> (r: Result<
        BluetoothDiscoverySession<'a, T>,
        Error,
    >)
        ensures
            r is Ok,
            r->Ok_0.adapter() == adapter@,
            r->Ok_0.transport() == session,
    {
        Ok(BluetoothDiscoverySession::new(session, adapter))
    }

    fn new(session: &'a T, adapter: String) -> (s: BluetoothDiscoverySession<'a, T>)
        ensures
            s.adapter() == adapter@,
            s.transport() == session,
    {
        BluetoothDiscoverySession { adapter: adapter, session: session }
    }

    fn call_method(&self, method: &str, param: Option<Vec<Value>>) -> (r: Result<(), Error>)
        ensures
            yields_unit(
                self.transport(),
                self.call(method@, arguments(param.deep_view())),
                content_of(r),
            ),
    {
        let ghost given = param.deep_view();
        let args = match param {
            Some(p) => {
                assert(p.deep_view() =~= contents(p@));
                p
            },
            None => {
                assert(contents(Seq::<Value>::empty()) =~= Seq::<ValueView>::empty());
                Vec::new()
            },
        };
        assert(contents(args@) == arguments(given));
        let request = Request::call(
            BusKind::System,
            SERVICE_NAME,
            self.adapter.as_str(),
            ADAPTER_INTERFACE,
            method,
            args,
        );
        send(self.session, &request)
    }

    /// Asks the adapter to start discovering. Nothing guards a second start:
    /// the daemon decides what it means.
    pub fn start_discovery(&self) -> (r: Result<(), Error>)
        ensures
            yields_unit(
                self.transport(),
                self.call("StartDiscovery"@, Seq::empty()),
                content_of(r),
            ),
    {
        self.call_method("StartDiscovery", None)
    }

    /// Asks the adapter to stop discovering. The session may be told so
    /// whether or not it was ever started: only the daemon can object.
    pub fn stop_discovery(&self) -> (r: Result<(), Error>)
        ensures
            yields_unit(
                self.transport(),
                self.call("StopDiscovery"@, Seq::empty()),
                content_of(r),
            ),
    {
        self.call_method("StopDiscovery", None)
    }

    /// Sets the filter of the discovery: the service UUIDs to look for, and
    /// bounds on signal strength and path loss where they are given.
    pub fn set_discovery_filter(
        &self,
        uuids: Vec<String>,
        rssi: Option<i16>,
        pathloss: Option<u16>,
    ) -> (r: Result<(), Error>)
        ensures
            yields_unit(
                self.transport(),
                self.call(
                    "SetDiscoveryFilter"@,
                    seq![discovery_filter(uuids.deep_view(), rssi, pathloss)],
                ),
                content_of(r),
            ),
    {
        let mut m: Vec<Value> = Vec::new();
        m.push(Value::named("UUIDs", Value::texts(&uuids)));
        let ghost first = seq![named("UUIDs"@, text_array(uuids.deep_view()))];
        assert(contents(m@) =~= first);
        if let Some(rssi) = rssi {
            m.push(Value::named("RSSI", Value::Int16(rssi)));
        }
        let ghost second = first + (match rssi {
            Some(r) => seq![named("RSSI"@, ValueView::Int16(r))],
            None => Seq::empty(),
        });
        assert(contents(m@) =~= second);
        if let Some(pathloss) = pathloss {
            m.push(Value::named("Pathloss", Value::UInt16(pathloss)));
        }
        assert(contents(m@) =~= second + (match pathloss {
            Some(p) => seq![named("Pathloss"@, ValueView::UInt16(p))],
            None => Seq::empty(),
        }));
        let mut args: Vec<Value> = Vec::new();
        args.push(Value::dictionary(m));
        assert(args.deep_view() =~= seq![discovery_filter(uuids.deep_view(), rssi, pathloss)]);
        self.call_method("SetDiscoveryFilter", Some(args))
    }
}

/// A session that was never started can be stopped: stopping asks nothing of
/// what went before, and fails only where the round trip itself fails, with
/// the failure that the transport reports.
pub proof fn stop_needs_no_start<'a, T: Transport>(
    session: BluetoothDiscoverySession<'a, T>,
    result: Result<(), ErrorView>,
)
    requires
        yields_unit(session.transport(), session.call("StopDiscovery"@, Seq::empty()), result),
        result is Err,
    ensures
        exists|o: OutcomeView|
            answers(session.transport(), session.call("StopDiscovery"@, Seq::empty()), o) && !(
            o is Reply) && failure_of(o) == Some(result->Err_0),
{
    fails_only_remotely(
        session.transport(),
        session.call("StopDiscovery"@, Seq::empty()),
        result,
    );
}

} // verus!
