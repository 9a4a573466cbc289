use vstd::prelude::*;
use vstd::string::StringExecFns;
use crate::bluetooth_device::BluetoothDevice;
use crate::errors::{content_of, Error, ErrorView};
use crate::marshal::{expect_path, expect_text, reads_path, reads_text};
use crate::text::same_text;
use crate::transport::{
    call_request, read_request, send, send_for_value, yields_unit, BusKind, Request, RequestView,
    Transport,
};
use crate::value::{contents, dictionary, mismatch, named, type_mismatch, Value, ValueView};

verus! {

pub const OBEX_BUS: &'static str = "org.bluez.obex";

pub const OBEX_PATH: &'static str = "/org/bluez/obex";

pub const OBJECT_PUSH_INTERFACE: &'static str = "org.bluez.obex.ObjectPush1";

pub const CLIENT_INTERFACE: &'static str = "org.bluez.obex.Client1";

pub const TRANSFER_INTERFACE: &'static str = "org.bluez.obex.Transfer1";

/// How long to sleep before each reading of a transfer's status, in
/// milliseconds.
pub const POLL_INTERVAL_MS: u64 = 500;

/// The profile that a session is opened for.
#[derive(Clone, Copy, Debug, PartialEq, Eq, Structural)]
pub enum SessionTarget {
    Ftp,
    Map_,
    Opp,
    Pbap,
    Sync_,
}

/// The tag under which the daemon knows a profile.
pub open spec fn target_tag(target: SessionTarget) -> Seq<char> {
    match target {
        SessionTarget::Ftp => "ftp"@,
        SessionTarget::Map_ => "map"@,
        SessionTarget::Opp => "opp"@,
        SessionTarget::Pbap => "pbap"@,
        SessionTarget::Sync_ => "sync"@,
    }
}

impl SessionTarget {
    pub fn as_str(&self) -> (tag: &'static str)
        ensures
            tag@ == target_tag(*self),
    {
        match self {
            SessionTarget::Ftp => "ftp",
            SessionTarget::Map_ => "map",
            SessionTarget::Opp => "opp",
            SessionTarget::Pbap => "pbap",
            SessionTarget::Sync_ => "sync",
        }
    }
}

/// The state of a transfer, as the daemon reports it.
#[derive(Clone, Copy, Debug, PartialEq, Eq, Structural)]
pub enum TransferState {
    Queued,
    Active,
    Complete,
    Suspended,
    Error,
}

/// The word under which the daemon reports a state.
pub open spec fn state_word(state: TransferState) -> Seq<char> {
    match state {
        TransferState::Queued => "queued"@,
        TransferState::Active => "active"@,
        TransferState::Complete => "complete"@,
        TransferState::Suspended => "suspended"@,
        TransferState::Error => "error"@,
    }
}

/// The state that a word names, if it names one.
pub open spec fn state_of(word: Seq<char>) -> Option<TransferState> {
    if word == "queued"@ {
        Some(TransferState::Queued)
    } else if word == "active"@ {
        Some(TransferState::Active)
    } else if word == "complete"@ {
        Some(TransferState::Complete)
    } else if word == "suspended"@ {
        Some(TransferState::Suspended)
    } else if word == "error"@ {
        Some(TransferState::Error)
    } else {
        None
    }
}

impl TransferState {
    pub fn as_str(&self) -> (word: &'static str)
        ensures
            word@ == state_word(*self),
    {
        match self {
            TransferState::Queued => "queued",
            TransferState::Active => "active",
            TransferState::Complete => "complete",
            TransferState::Suspended => "suspended",
            TransferState::Error => "error",
        }
    }

    /// Narrows a status word to the state that it names.
    pub fn from_status(word: &str) -> (state: Option<TransferState>)
        ensures
            state == state_of(word@),
    {
        if same_text(word, "queued") {
            Some(TransferState::Queued)
        } else if same_text(word, "active") {
            Some(TransferState::Active)
        } else if same_text(word, "complete") {
            Some(TransferState::Complete)
        } else if same_text(word, "suspended") {
            Some(TransferState::Suspended)
        } else if same_text(word, "error") {
            Some(TransferState::Error)
        } else {
            None
        }
    }
}

/// The request that opens a session with the device of the given address
/// for the given profile.
pub open spec fn open_request(address: Seq<char>, target: SessionTarget) -> RequestView {
    call_request(
        BusKind::Session,
        OBEX_BUS@,
        OBEX_PATH@,
        CLIENT_INTERFACE@,
        "CreateSession"@,
        seq![
            ValueView::Str(address),
            dictionary(seq![named("Target"@, ValueView::Str(target_tag(target)))]),
        ],
    )
}

/// The request that closes the session of the given path.
pub open spec fn close_request(session_path: Seq<char>) -> RequestView {
    call_request(
        BusKind::Session,
        OBEX_BUS@,
        OBEX_PATH@,
        CLIENT_INTERFACE@,
        "RemoveSession"@,
        seq![ValueView::ObjectPath(session_path)],
    )
}

/// The request that pushes a file through the session of the given path.
pub open spec fn push_request(session_path: Seq<char>, file_path: Seq<char>) -> RequestView {
    call_request(
        BusKind::Session,
        OBEX_BUS@,
        session_path,
        OBJECT_PUSH_INTERFACE@,
        "SendFile"@,
        seq![ValueView::Str(file_path)],
    )
}

/// The request that reads the status of the transfer of the given path.
pub open spec fn status_request(transfer_path: Seq<char>) -> RequestView {
    read_request(BusKind::Session, OBEX_BUS@, transfer_path, TRANSFER_INTERFACE@, "Status"@)
}

/// Opening a session takes two round trips: one reads the address of the
/// device, the other asks for the session with that address. A failure of
/// the first is the result; otherwise the result is the object path that the
/// second returns, or its failure.
pub open spec fn opens<T: Transport>(
    transport: &T,
    device: BluetoothDevice,
    target: SessionTarget,
    result: Result<Seq<char>, ErrorView>,
) -> bool {
    exists|address: Result<Seq<char>, ErrorView>|
        reads_text(transport, device.property("Address"@), address) && (match address {
            Ok(a) => reads_path(transport, open_request(a, target), result),
            Err(e) => result == Err::<Seq<char>, ErrorView>(e),
        })
}

/// A session with one device for one profile: the transport on which it
/// speaks and the path of its remote object.
pub struct BluetoothOBEXSession<'a, T: Transport> {
    session: &'a T,
    object_path: String,
}

impl<'a, T: Transport> BluetoothOBEXSession<'a, T> {
    /// The path of the session's remote object.
    pub closed spec fn path(&self) -> Seq<char> {
        self.object_path@
    }

    /// The transport on which the session speaks.
    pub closed spec fn transport(&self) -> &'a T {
        self.session
    }

    /// Opens a session with the device for pushing objects.
    pub fn new(session: &'a T, device: &BluetoothDevice) -> (r: Result<
        BluetoothOBEXSession<'a, T>,
        Error,
    >)
        ensures
            match r {
                Ok(s) => s.transport() == session && opens(
                    session,
                    *device,
                    SessionTarget::Opp,
                    Ok(s.path()),
                ),
                Err(e) => opens(session, *device, SessionTarget::Opp, Err(e@)),
            },
    {
        BluetoothOBEXSession::with_target(session, device, SessionTarget::Opp)
    }

    /// Opens a session with the device for the given profile.
    pub fn with_target(session: &'a T, device: &BluetoothDevice, target: SessionTarget) -> (r:
        Result<BluetoothOBEXSession<'a, T>, Error>)
        ensures
            match r {
                Ok(s) => s.transport() == session && opens(session, *device, target, Ok(s.path())),
                Err(e) => opens(session, *device, target, Err(e@)),
            },
    {
        let address = device.get_address(session);
        match address {
            Ok(device_address) => {
                let ghost a = device_address@;
                let mut map: Vec<Value> = Vec::new();
                map.push(Value::named("Target", Value::text(target.as_str())));
                assert(contents(map@) =~= seq![
                    named("Target"@, ValueView::Str(target_tag(target))),
                ]);
                let mut args: Vec<Value> = Vec::new();
                args.push(Value::Str(device_address));
                args.push(Value::dictionary(map));
                assert(contents(args@) =~= seq![
                    ValueView::Str(a),
                    dictionary(seq![named("Target"@, ValueView::Str(target_tag(target)))]),
                ]);
                let m = Request::call(
                    BusKind::Session,
                    OBEX_BUS,
                    OBEX_PATH,
                    CLIENT_INTERFACE,
                    "CreateSession",
                    args,
                );
                let session_path = expect_path(send_for_value(session, &m));
                assert(reads_path(session, open_request(a, target), content_of(session_path)));
                match session_path {
                    Ok(session_str) => {
                        let obex_session = BluetoothOBEXSession {
                            session,
                            object_path: session_str,
                        };
                        assert(opens(session, *device, target, Ok(obex_session.path())));
                        Ok(obex_session)
                    },
                    Err(e) => {
                        assert(opens(session, *device, target, Err(e@)));
                        Err(e)
                    },
                }
            },
            Err(e) => {
                assert(opens(session, *device, target, Err(e@)));
                Err(e)
            },
        }
    }

    /// Closes the session.
    pub fn remove_session(&self) -> (r: Result<(), Error>)
        ensures
            yields_unit(self.transport(), close_request(self.path()), content_of(r)),
    {
        let mut args: Vec<Value> = Vec::new();
        args.push(Value::ObjectPath(self.object_path.clone()));
        assert(contents(args@) =~= seq![ValueView::ObjectPath(self.path())]);
        let m = Request::call(
            BusKind::Session,
            OBEX_BUS,
            OBEX_PATH,
            CLIENT_INTERFACE,
            "RemoveSession",
            args,
        );
        send(self.session, &m)
    }
}

/// The final component of a path, as `std::path::Path::file_name` finds it.
pub uninterp spec fn final_component(path: Seq<char>) -> Option<Seq<char>>;

/// Finds the final component of a path with `std::path::Path::file_name`:
/// the name of the file or directory that the path ends in, or nothing
/// where the path ends in `..` or names the root.
#[verifier::external_body]
fn file_name(path: &str) -> (name: Option<String>)
    ensures
        name.deep_view() == final_component(path@),
{
    match std::path::Path::new(path).file_name() {
        Some(value) => Some(value.to_string_lossy().to_string()),
        None => None,
    }
}

/// The name under which a file is shown: its final component, or the whole
/// path where it has none.
pub open spec fn shown_name(file_path: Seq<char>, component: Option<Seq<char>>) -> Seq<char> {
    match component {
        Some(name) => name,
        None => file_path,
    }
}

/// Picks the name under which a file is shown.
pub fn display_name(file_path: &str, component: Option<String>) -> (name: String)
    ensures
        name@ == shown_name(file_path@, component.deep_view()),
{
    match component {
        Some(value) => value,
        None => String::from_str(file_path),
    }
}

/// One object on its way through a session: the session, the path of the
/// transfer's remote object, and the name under which the file is shown.
pub struct BluetoothOBEXTransfer<'a, T: Transport> {
    session: &'a BluetoothOBEXSession<'a, T>,
    object_path: String,
    _name: String,
}

/// Something that can let time pass. Nothing is assumed of a clock.
pub trait Clock {
    fn sleep(&self, millis: u64);
}

/// A reading of the status ends the wait when it failed, or when it shows
/// that the transfer is complete or in error.
pub open spec fn ends_wait(status: Result<Seq<char>, ErrorView>) -> bool {
    match status {
        Ok(word) => word == state_word(TransferState::Complete) || word == state_word(
            TransferState::Error,
        ),
        Err(_) => true,
    }
}

/// What a wait does next.
#[derive(Clone, Copy, Debug, PartialEq, Eq, Structural)]
pub enum WaitStep {
    /// Sleep for so many milliseconds, then read the status.
    Poll(u64),
    /// Stop waiting.
    Stop,
}

/// What a wait does after `taken` readings, of which `last` is the latest,
/// when it may take `limit` at most: it stops at the limit and after a
/// reading that ends the wait, and otherwise sleeps for the poll interval
/// and reads again.
pub open spec fn step_after(
    taken: nat,
    limit: nat,
    last: Option<Result<Seq<char>, ErrorView>>,
) -> WaitStep {
    if taken >= limit || (last is Some && ends_wait(last->Some_0)) {
        WaitStep::Stop
    } else {
        WaitStep::Poll(POLL_INTERVAL_MS)
    }
}

/// What happens during a wait: a sleep of so many milliseconds, or a
/// reading of the status.
pub enum WaitEvent {
    Slept(u64),
    Read(Result<Seq<char>, ErrorView>),
}

/// What happens from one point of a wait on, when `coming` are the readings
/// that the daemon gives from there, one after the other: for each step that
/// polls, a sleep and then the next reading, until the step is to stop or
/// no reading is left.
pub open spec fn trace_after(
    taken: nat,
    last: Option<Result<Seq<char>, ErrorView>>,
    coming: Seq<Result<Seq<char>, ErrorView>>,
    limit: nat,
) -> Seq<WaitEvent>
    decreases coming.len(),
{
    match step_after(taken, limit, last) {
        WaitStep::Stop => Seq::empty(),
        WaitStep::Poll(millis) => if coming.len() == 0 {
            Seq::empty()
        } else {
            seq![WaitEvent::Slept(millis), WaitEvent::Read(coming[0])] + trace_after(
                taken + 1,
                Some(coming[0]),
                coming.drop_first(),
                limit,
            )
        },
    }
}

/// What happens during a whole wait that may take `limit` readings at most,
/// when `statuses` are the readings that the daemon gives, one after the
/// other.
pub open spec fn wait_trace(statuses: Seq<Result<Seq<char>, ErrorView>>, limit: nat) -> Seq<
    WaitEvent,
> {
    trace_after(0, None, statuses, limit)
}

/// Every one of the readings taken, in order, each after a sleep of the poll
/// interval, and nothing else.
pub open spec fn polled(readings: Seq<Result<Seq<char>, ErrorView>>) -> Seq<WaitEvent> {
    Seq::new(
        2 * readings.len(),
        |i: int|
            if i % 2 == 0 {
                WaitEvent::Slept(POLL_INTERVAL_MS)
            } else {
                WaitEvent::Read(readings[i / 2])
            },
    )
}

/// The latest of the readings, if there is one.
pub open spec fn latest(readings: Seq<Result<Seq<char>, ErrorView>>) -> Option<
    Result<Seq<char>, ErrorView>,
> {
    if readings.len() > 0 {
        Some(readings.last())
    } else {
        None
    }
}

proof fn polled_unfolds(readings: Seq<Result<Seq<char>, ErrorView>>)
    requires
        readings.len() > 0,
    ensures
        polled(readings) == seq![
            WaitEvent::Slept(POLL_INTERVAL_MS),
            WaitEvent::Read(readings[0]),
        ] + polled(readings.drop_first()),
{
    let rest = readings.drop_first();
    let joined = seq![WaitEvent::Slept(POLL_INTERVAL_MS), WaitEvent::Read(readings[0])] + polled(
        rest,
    );
    assert forall|i: int| 0 <= i < polled(readings).len() implies polled(readings)[i]
        == joined[i] by {
        if i >= 2 {
            assert(joined[i] == polled(rest)[i - 2]);
            assert((i - 2) % 2 == i % 2);
            assert((i - 2) / 2 + 1 == i / 2);
            assert(rest[(i - 2) / 2] == readings[i / 2]);
        }
    }
    assert(polled(readings) =~= joined);
}

/// Where the first `n` of the coming readings are such that none but the
/// last of them ends the wait, and the step after them is to stop or no
/// reading is left, the wait polls exactly these `n`.
proof fn trace_is_polled(
    taken: nat,
    last: Option<Result<Seq<char>, ErrorView>>,
    coming: Seq<Result<Seq<char>, ErrorView>>,
    limit: nat,
    n: int,
)
    requires
        0 <= n <= coming.len(),
        taken + n <= limit,
        n > 0 ==> step_after(taken, limit, last) is Poll,
        forall|i: int| 0 <= i < n - 1 ==> !ends_wait(#[trigger] coming[i]),
        n == coming.len() || step_after(
            (taken + n) as nat,
            limit,
            if n > 0 {
                Some(coming[n - 1])
            } else {
                last
            },
        ) is Stop,
    ensures
        trace_after(taken, last, coming, limit) == polled(coming.take(n)),
    decreases n,
{
    if n == 0 {
        assert(polled(coming.take(0)) =~= Seq::<WaitEvent>::empty());
    } else {
        let rest = coming.drop_first();
        assert forall|i: int| 0 <= i < n - 2 implies !ends_wait(#[trigger] rest[i]) by {
            assert(rest[i] == coming[i + 1]);
        }
        if n > 1 {
            assert(!ends_wait(coming[0]));
            assert(rest[n - 2] == coming[n - 1]);
        }
        trace_is_polled(taken + 1, Some(coming[0]), rest, limit, n - 1);
        assert(coming.take(n).drop_first() =~= rest.take(n - 1));
        polled_unfolds(coming.take(n));
    }
}

/// A wait ends with the first reading that shows the transfer complete or in
/// error, or that failed. Where that is the reading of poll `k + 1`, within
/// the limit, the wait sleeps `k + 1` times for the poll interval, each
/// time before it reads, reads these `k + 1` statuses in order, and reads
/// nothing after them.
pub proof fn wait_ends_with_the_first_end(
    statuses: Seq<Result<Seq<char>, ErrorView>>,
    limit: nat,
    k: int,
)
    requires
        0 <= k < statuses.len(),
        k < limit,
        ends_wait(statuses[k]),
        forall|i: int| 0 <= i < k ==> !ends_wait(#[trigger] statuses[i]),
    ensures
        wait_trace(statuses, limit) == polled(statuses.take(k + 1)),
        wait_trace(statuses, limit).len() == 2 * (k + 1),
        forall|i: int|
            0 <= i <= k ==> wait_trace(statuses, limit)[2 * i] == WaitEvent::Slept(
                POLL_INTERVAL_MS,
            ) && wait_trace(statuses, limit)[2 * i + 1] == WaitEvent::Read(statuses[i]),
{
    trace_is_polled(0, None, statuses, limit, k + 1);
    assert forall|i: int| 0 <= i <= k implies polled(statuses.take(k + 1))[2 * i]
        == WaitEvent::Slept(POLL_INTERVAL_MS) && polled(statuses.take(k + 1))[2 * i + 1]
        == WaitEvent::Read(statuses[i]) by {
        assert((2 * i) % 2 == 0);
        assert((2 * i + 1) % 2 == 1);
        assert((2 * i + 1) / 2 == i);
        assert(statuses.take(k + 1)[i] == statuses[i]);
    }
}

/// A wait on a transfer that never ends stops at its limit: where none of
/// the first `limit` readings ends the wait, the wait polls exactly these.
pub proof fn wait_ends_at_the_limit(statuses: Seq<Result<Seq<char>, ErrorView>>, limit: nat)
    requires
        limit <= statuses.len(),
        forall|i: int| 0 <= i < limit ==> !ends_wait(#[trigger] statuses[i]),
    ensures
        wait_trace(statuses, limit) == polled(statuses.take(limit as int)),
{
    trace_is_polled(0, None, statuses, limit, limit as int);
}

/// The content of the latest reading, if there is one.
pub open spec fn seen(last: Option<Result<String, Error>>) -> Option<
    Result<Seq<char>, ErrorView>,
> {
    match last {
        Some(status) => Some(content_of(status)),
        None => None,
    }
}

/// Decides what a wait does next, after `taken` readings of which `last` is
/// the latest.
pub fn next_step(taken: usize, limit: usize, last: Option<&Result<String, Error>>) -> (step:
    WaitStep)
    ensures
        step == step_after(
            taken as nat,
            limit as nat,
            seen(
                match last {
                    Some(status) => Some(*status),
                    None => None,
                },
            ),
        ),
{
    if taken >= limit {
        return WaitStep::Stop;
    }
    match last {
        Some(status) => if keeps_waiting(status) {
            WaitStep::Poll(POLL_INTERVAL_MS)
        } else {
            WaitStep::Stop
        },
        None => WaitStep::Poll(POLL_INTERVAL_MS),
    }
}

/// Whether a wait goes on after this reading of the status.
pub fn keeps_waiting(status: &Result<String, Error>) -> (goes_on: bool)
    ensures
        goes_on == !ends_wait(content_of(*status)),
{
    match status {
        Ok(word) => !same_text(word.as_str(), TransferState::Complete.as_str()) && !same_text(
            word.as_str(),
            TransferState::Error.as_str(),
        ),
        Err(_) => false,
    }
}

impl<'a, T: Transport> BluetoothOBEXTransfer<'a, T> {
    /// The path of the transfer's remote object.
    pub closed spec fn path(&self) -> Seq<char> {
        self.object_path@
    }

    /// The name under which the file is shown.
    pub closed spec fn name(&self) -> Seq<char> {
        self._name@
    }

    /// The session that carries the transfer.
    pub closed spec fn session(&self) -> &'a BluetoothOBEXSession<'a, T> {
        self.session
    }

    /// The transport on which the transfer's session speaks.
    pub open spec fn transport(&self) -> &'a T {
        self.session().transport()
    }

    /// Pushes the file of the given path through the session. The transfer
    /// wraps the object path that the daemon returns, and is shown under the
    /// final component of the file's path.
    pub fn send_file(session: &'a BluetoothOBEXSession<'a, T>, file_path: &str) -> (r: Result<
        BluetoothOBEXTransfer<'a, T>,
        Error,
    >)
        ensures
            match r {
                Ok(t) => t.session() == session && t.name() == shown_name(
                    file_path@,
                    final_component(file_path@),
                ) && reads_path(
                    session.transport(),
                    push_request(session.path(), file_path@),
                    Ok(t.path()),
                ),
                Err(e) => reads_path(
                    session.transport(),
                    push_request(session.path(), file_path@),
                    Err(e@),
                ),
            },
    {
        let mut args: Vec<Value> = Vec::new();
        args.push(Value::text(file_path));
        assert(contents(args@) =~= seq![ValueView::Str(file_path@)]);
        let m = Request::call(
            BusKind::Session,
            OBEX_BUS,
            session.object_path.as_str(),
            OBJECT_PUSH_INTERFACE,
            "SendFile",
            args,
        );
        let transfer_path = expect_path(send_for_value(session.session, &m));
        match transfer_path {
            Ok(transfer_str) => {
                let file_name = display_name(file_path, file_name(file_path));
                Ok(BluetoothOBEXTransfer { session, object_path: transfer_str, _name: file_name })
            },
            Err(e) => Err(e),
        }
    }

    /// The name under which the file is shown.
    pub fn name_str(&self) -> (name: &str)
        ensures
            name@ == self.name(),
    {
        self._name.as_str()
    }

    /// Reads the status of the transfer, as the word that the daemon
    /// reports.
    pub fn status(&self) -> (r: Result<String, Error>)
        ensures
            reads_text(self.transport(), status_request(self.path()), content_of(r)),
    {
        let request = Request::read(
            BusKind::Session,
            OBEX_BUS,
            self.object_path.as_str(),
            TRANSFER_INTERFACE,
            "Status",
        );
        expect_text(send_for_value(self.session.session, &request))
    }

    /// Reads the status of the transfer and narrows it to the state that it
    /// names. A word that names no state is a type mismatch.
    pub fn state(&self) -> (r: Result<TransferState, Error>)
        ensures
            exists|status: Result<Seq<char>, ErrorView>|
                reads_text(self.transport(), status_request(self.path()), status) && (match r {
                    Ok(state) => status is Ok && state_of(status->Ok_0) == Some(state),
                    Err(e) => match status {
                        Ok(word) => state_of(word) is None && e@ == mismatch(),
                        Err(failed) => e@ == failed,
                    },
                }),
    {
        match self.status() {
            Ok(word) => match TransferState::from_status(word.as_str()) {
                Some(state) => Ok(state),
                None => Err(type_mismatch()),
            },
            Err(e) => Err(e),
        }
    }

    /// Waits for the transfer to end. As long as the next step is to poll,
    /// the wait sleeps for the time that the step gives and then reads the
    /// status; it stops after a reading that shows the transfer complete or
    /// in error, after a reading that failed, and after `max_polls`
    /// readings. The wait itself never fails: the caller reads the status
    /// again to learn how the transfer ended.
    pub fn wait_until_transfer_completed<C: Clock>(&self, clock: &C, max_polls: usize) -> (r:
        Result<(), Error>)
        ensures
            r is Ok,
            exists|readings: Seq<Result<Seq<char>, ErrorView>>|
                {
                    &&& forall|i: int|
                        0 <= i < readings.len() ==> reads_text(
                            self.transport(),
                            status_request(self.path()),
                            #[trigger] readings[i],
                        )
                    &&& wait_trace(readings, max_polls as nat) == polled(readings)
                    &&& step_after(readings.len(), max_polls as nat, latest(readings)) is Stop
                    &&& readings.len() > 0 ==> call_ensures(
                        C::sleep,
                        (clock, POLL_INTERVAL_MS),
                        (),
                    )
                },
    {
        let ghost mut readings: Seq<Result<Seq<char>, ErrorView>> = Seq::empty();
        let mut polls: usize = 0;
        let mut last: Option<Result<String, Error>> = None;
        loop
            invariant
                polls <= max_polls,
                polls == readings.len(),
                seen(last) == latest(readings),
                forall|i: int| 0 <= i < readings.len() - 1 ==> !ends_wait(#[trigger] readings[i]),
                forall|i: int|
                    0 <= i < readings.len() ==> reads_text(
                        self.transport(),
                        status_request(self.path()),
                        #[trigger] readings[i],
                    ),
                readings.len() > 0 ==> call_ensures(C::sleep, (clock, POLL_INTERVAL_MS), ()),
            decreases max_polls - polls,
        {
            match next_step(polls, max_polls, last.as_ref()) {
                WaitStep::Stop => {
                    proof {
                        trace_is_polled(0, None, readings, max_polls as nat, readings.len() as int);
                        assert(readings.take(readings.len() as int) =~= readings);
                    }
                    return Ok(());
                },
                WaitStep::Poll(millis) => {
                    clock.sleep(millis);
                    let transfer_status = self.status();
                    proof {
                        readings = readings.push(content_of(transfer_status));
                    }
                    polls += 1;
                    last = Some(transfer_status);
                },
            }
        }
    }
}

} // verus!
