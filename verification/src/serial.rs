//! The operations on the session registry. Each is a step function: it is
//! given what has happened so far and answers with the device action to
//! perform next, or with the operation's result. The caller performs the
//! action on the device and comes back with its outcome.

use vstd::prelude::*;
use vstd::string::{StrSliceExecFns, StringExecFns};
use vstd::utf8::{decode_utf8, encode_utf8, valid_utf8};
use crate::config::{settings_of, PortSettings, SerialConfig};
use crate::error::{text_outcome, SerialError, SerialErrorView, WriteStage};
use crate::registry::{PortSession, SerialManager};
use crate::text::{concat, decode_lossy, lossy_text};

verus! {

/// What has happened so far in an `open`.
#[derive(Debug, PartialEq, Eq)]
pub enum OpenEvent<H> {
    /// The caller asks for the port to be opened.
    Requested,
    /// The device was opened; holds its handle.
    Opened(H),
    /// The device could not be opened; holds the system's message.
    Refused(String),
}

/// What an `open` does next.
#[derive(Debug, PartialEq, Eq)]
pub enum OpenAction {
    /// Open the device with these settings.
    Connect(PortSettings),
    /// The operation is over: the confirmation, or the failure.
    Finish(Result<String, SerialError>),
}

/// An [`OpenAction`] with its texts as character sequences.
pub enum OpenActionView {
    Connect(PortSettings),
    Finish(Result<Seq<char>, SerialErrorView>),
}

impl View for OpenAction {
    type V = OpenActionView;

    open spec fn view(&self) -> OpenActionView {
        match self {
            OpenAction::Connect(settings) => OpenActionView::Connect(*settings),
            OpenAction::Finish(Ok(text)) => OpenActionView::Finish(Ok(text@)),
            OpenAction::Finish(Err(error)) => OpenActionView::Finish(Err(error@)),
        }
    }
}

/// What has happened so far in a `write`.
#[derive(Debug, PartialEq, Eq)]
pub enum WriteEvent {
    /// The caller asks for the text to be written.
    Requested,
    /// The device took the bytes, or failed to; holds the number of bytes
    /// that it accepted, or the system's message.
    Written(Result<usize, String>),
    /// The flush after `written` accepted bytes ended; holds the system's
    /// message where it failed.
    Flushed { written: usize, outcome: Result<(), String> },
}

/// What a `write` does next.
#[derive(Debug, PartialEq, Eq)]
pub enum WriteAction {
    /// Hand these bytes, the whole text, to the device in one write.
    Send(Vec<u8>),
    /// Flush the device, so that the bytes are on the wire before the
    /// operation ends.
    Flush { written: usize },
    /// The operation is over: the number of bytes that the device accepted,
    /// or the failure.
    Finish(Result<usize, SerialError>),
}

/// A [`WriteAction`] with its contents as sequences.
pub enum WriteActionView {
    Send(Seq<u8>),
    Flush { written: usize },
    Finish(Result<usize, SerialErrorView>),
}

impl View for WriteAction {
    type V = WriteActionView;

    open spec fn view(&self) -> WriteActionView {
        match self {
            WriteAction::Send(bytes) => WriteActionView::Send(bytes@),
            WriteAction::Flush { written } => WriteActionView::Flush { written: *written },
            WriteAction::Finish(Ok(count)) => WriteActionView::Finish(Ok(*count)),
            WriteAction::Finish(Err(error)) => WriteActionView::Finish(Err(error@)),
        }
    }
}

/// What has happened so far in a `read`.
#[derive(Debug, PartialEq, Eq)]
pub enum ReadEvent {
    /// The caller asks for text to be read.
    Requested,
    /// The device delivered these bytes.
    Received(Vec<u8>),
    /// The timeout passed without a byte.
    TimedOut,
    /// The read failed for another reason; holds the system's message.
    Failed(String),
}

/// What a `read` does next.
#[derive(Debug, PartialEq, Eq)]
pub enum ReadAction {
    /// Read once from the device into this buffer, waiting no longer than the
    /// session's timeout.
    Receive(Vec<u8>),
    /// The operation is over: the text that was read, or the failure.
    Finish(Result<String, SerialError>),
}

/// A [`ReadAction`] with its contents as sequences.
pub enum ReadActionView {
    Receive(Seq<u8>),
    Finish(Result<Seq<char>, SerialErrorView>),
}

impl View for ReadAction {
    type V = ReadActionView;

    open spec fn view(&self) -> ReadActionView {
        match self {
            ReadAction::Receive(buffer) => ReadActionView::Receive(buffer@),
            ReadAction::Finish(Ok(text)) => ReadActionView::Finish(Ok(text@)),
            ReadAction::Finish(Err(error)) => ReadActionView::Finish(Err(error@)),
        }
    }
}

/// The confirmation of an `open`.
pub open spec fn opened_text(port_name: Seq<char>) -> Seq<char> {
    "Port "@ + port_name + " opened successfully"@
}

/// The confirmation of a `close`.
pub open spec fn closed_text(port_name: Seq<char>) -> Seq<char> {
    "Port "@ + port_name + " closed successfully"@
}

/// A buffer of `len` zero bytes.
pub open spec fn zeroed(len: nat) -> Seq<u8> {
    Seq::new(len, |i: int| 0u8)
}

/// One step of an `open`: the sessions afterwards and the next action.
///
/// A port that has a session is never opened again, whatever the event. For
/// a port without one, a request asks for the device to be opened with the
/// settings that the request selects, a refusal ends the operation with the
/// system's message, and an opened device becomes the port's session.
pub open spec fn open_step<H>(
    sessions: Map<Seq<char>, PortSession<H>>,
    port_name: Seq<char>,
    settings: PortSettings,
    event: OpenEvent<H>,
) -> (Map<Seq<char>, PortSession<H>>, OpenActionView) {
    if sessions.dom().contains(port_name) {
        (sessions, OpenActionView::Finish(Err(SerialErrorView::DuplicateSession)))
    } else {
        match event {
            OpenEvent::Requested => (sessions, OpenActionView::Connect(settings)),
            OpenEvent::Opened(handle) => (
                sessions.insert(port_name, PortSession { settings, handle }),
                OpenActionView::Finish(Ok(opened_text(port_name))),
            ),
            OpenEvent::Refused(reason) => (
                sessions,
                OpenActionView::Finish(Err(SerialErrorView::OpenError(reason@))),
            ),
        }
    }
}

/// A `close`: the sessions afterwards and the result.
pub open spec fn close_step<H>(
    sessions: Map<Seq<char>, PortSession<H>>,
    port_name: Seq<char>,
) -> (Map<Seq<char>, PortSession<H>>, Result<Seq<char>, SerialErrorView>) {
    if sessions.dom().contains(port_name) {
        (sessions.remove(port_name), Ok(closed_text(port_name)))
    } else {
        (sessions, Err(SerialErrorView::NotFound))
    }
}

/// One step of a `write`: the next action.
///
/// A request for a port without a session ends at once; for a port with one
/// it asks for the text's bytes to be sent. A failed write ends the
/// operation; a write that the device accepted is followed by a flush. After
/// the flush the operation ends with the number of bytes that the write
/// accepted, or with the flush's failure.
pub open spec fn write_step<H>(
    sessions: Map<Seq<char>, PortSession<H>>,
    port_name: Seq<char>,
    data: Seq<char>,
    event: WriteEvent,
) -> WriteActionView {
    match event {
        WriteEvent::Requested => if sessions.dom().contains(port_name) {
            WriteActionView::Send(encode_utf8(data))
        } else {
            WriteActionView::Finish(Err(SerialErrorView::NotOpen))
        },
        WriteEvent::Written(Ok(written)) => WriteActionView::Flush { written },
        WriteEvent::Written(Err(reason)) => WriteActionView::Finish(
            Err(SerialErrorView::WriteError(WriteStage::Transmit, reason@)),
        ),
        WriteEvent::Flushed { written, outcome: Ok(_) } => WriteActionView::Finish(Ok(written)),
        WriteEvent::Flushed { written, outcome: Err(reason) } => WriteActionView::Finish(
            Err(SerialErrorView::WriteError(WriteStage::Flush, reason@)),
        ),
    }
}

/// One step of a `read`: the next action.
///
/// A request for a port without a session ends at once; for a port with one
/// it asks for one read into a zeroed buffer of the length asked for. The
/// bytes that arrive are decoded as UTF-8, invalid sequences replaced (for
/// valid UTF-8 that is the text that the bytes encode); a
/// timeout without a byte is an empty text and no failure; any other failure
/// ends the operation with the system's message.
pub open spec fn read_step<H>(
    sessions: Map<Seq<char>, PortSession<H>>,
    port_name: Seq<char>,
    buffer_size: usize,
    event: ReadEvent,
) -> ReadActionView {
    match event {
        ReadEvent::Requested => if sessions.dom().contains(port_name) {
            ReadActionView::Receive(zeroed(buffer_size as nat))
        } else {
            ReadActionView::Finish(Err(SerialErrorView::NotOpen))
        },
        ReadEvent::Received(bytes) => ReadActionView::Finish(Ok(lossy_text(bytes@))),
        ReadEvent::TimedOut => ReadActionView::Finish(Ok(Seq::<char>::empty())),
        ReadEvent::Failed(reason) => ReadActionView::Finish(
            Err(SerialErrorView::ReadError(reason@)),
        ),
    }
}

/// Takes an `open` of `port_name` one step further.
pub fn open_serial_port<H>(
    port_name: &str,
    config: &SerialConfig,
    manager: &mut SerialManager<H>,
    event: OpenEvent<H>,
) -> (action: OpenAction)
    ensures
        (final(manager)@, action@) == open_step(
            old(manager)@,
            port_name@,
            settings_of(*config),
            event,
        ),
{
    if manager.is_open(port_name) {
        return OpenAction::Finish(Err(SerialError::DuplicateSession));
    }
    match event {
        OpenEvent::Requested => OpenAction::Connect(config.settings()),
        OpenEvent::Opened(handle) => {
            let session = PortSession { settings: config.settings(), handle };
            manager.insert(port_name.to_owned(), session);
            let mut text = concat("Port ", port_name);
            text.append(" opened successfully");
            OpenAction::Finish(Ok(text))
        },
        OpenEvent::Refused(reason) => OpenAction::Finish(Err(SerialError::OpenError(reason))),
    }
}

/// Closes `port_name`: its session leaves the registry and its handle is
/// dropped, which releases the device.
pub fn close_serial_port<H>(
    port_name: &str,
    manager: &mut SerialManager<H>,
) -> (result: Result<String, SerialError>)
    ensures
        (final(manager)@, text_outcome(result)) == close_step(old(manager)@, port_name@),
{
    match manager.remove(port_name) {
        Some(_) => {
            let mut text = concat("Port ", port_name);
            text.append(" closed successfully");
            Ok(text)
        },
        None => {
            assert(manager@ =~= old(manager)@);
            Err(SerialError::NotFound)
        },
    }
}

/// Takes a `write` of `data` to `port_name` one step further.
pub fn write_serial_data<H>(
    port_name: &str,
    data: &str,
    manager: &SerialManager<H>,
    event: WriteEvent,
) -> (action: WriteAction)
    ensures
        action@ == write_step(manager@, port_name@, data@, event),
{
    match event {
        WriteEvent::Requested => {
            if manager.is_open(port_name) {
                WriteAction::Send(data.as_bytes_vec())
            } else {
                WriteAction::Finish(Err(SerialError::NotOpen))
            }
        },
        WriteEvent::Written(Ok(written)) => WriteAction::Flush { written },
        WriteEvent::Written(Err(reason)) => WriteAction::Finish(
            Err(SerialError::WriteError(WriteStage::Transmit, reason)),
        ),
        WriteEvent::Flushed { written, outcome: Ok(_) } => WriteAction::Finish(Ok(written)),
        WriteEvent::Flushed { written, outcome: Err(reason) } => WriteAction::Finish(
            Err(SerialError::WriteError(WriteStage::Flush, reason)),
        ),
    }
}

/// Takes a `read` of up to `buffer_size` bytes from `port_name` one step
/// further.
pub fn read_serial_data<H>(
    port_name: &str,
    buffer_size: usize,
    manager: &SerialManager<H>,
    event: ReadEvent,
) -> (action: ReadAction)
    ensures
        action@ == read_step(manager@, port_name@, buffer_size, event),
        event matches ReadEvent::Received(bytes) ==> (valid_utf8(bytes@) ==> action@
            == ReadActionView::Finish(Ok(decode_utf8(bytes@)))),
{
    match event {
        ReadEvent::Requested => {
            if manager.is_open(port_name) {
                let buffer = vec![0u8; buffer_size];
                assert(buffer@ =~= zeroed(buffer_size as nat));
                ReadAction::Receive(buffer)
            } else {
                ReadAction::Finish(Err(SerialError::NotOpen))
            }
        },
        ReadEvent::Received(bytes) => ReadAction::Finish(Ok(decode_lossy(bytes.as_slice()))),
        ReadEvent::TimedOut => ReadAction::Finish(Ok(String::new())),
        ReadEvent::Failed(reason) => ReadAction::Finish(Err(SerialError::ReadError(reason))),
    }
}

/// A port that was opened is not opened again: after an `open` whose device
/// was opened, every step of another `open` of the same port ends with
/// `DuplicateSession` and leaves the sessions as they are.
pub proof fn lemma_second_open_is_refused<H>(
    sessions: Map<Seq<char>, PortSession<H>>,
    port_name: Seq<char>,
    first: PortSettings,
    handle: H,
    second: PortSettings,
    event: OpenEvent<H>,
)
    ensures
        ({
            let opened = open_step(sessions, port_name, first, OpenEvent::Opened(handle)).0;
            &&& opened.dom().contains(port_name)
            &&& open_step(opened, port_name, second, event) == (
                opened,
                OpenActionView::Finish(Err(SerialErrorView::DuplicateSession)),
            )
        }),
{
}

/// An `open` of a port without a session keeps what it was asked with: the
/// device is to be opened with the settings that the request selects, and
/// once it is open the session holds those settings and the device's handle.
/// No other port's session changes.
pub proof fn lemma_open_registers<H>(
    sessions: Map<Seq<char>, PortSession<H>>,
    port_name: Seq<char>,
    settings: PortSettings,
    handle: H,
)
    requires
        !sessions.dom().contains(port_name),
    ensures
        open_step(sessions, port_name, settings, OpenEvent::Requested) == (
            sessions,
            OpenActionView::Connect(settings),
        ),
        ({
            let opened = open_step(sessions, port_name, settings, OpenEvent::Opened(handle));
            &&& opened.1 == OpenActionView::Finish(Ok(opened_text(port_name)))
            &&& opened.0[port_name] == PortSession { settings, handle }
            &&& forall|other: Seq<char>|
                other != port_name ==> opened.0.dom().contains(other) == sessions.dom().contains(other)
                    && opened.0[other] == sessions[other]
        }),
{
}

/// A `write` to a port that has no session, so to one that was never opened
/// or was closed since, ends with `NotOpen` before anything is sent.
pub proof fn lemma_write_needs_session<H>(
    sessions: Map<Seq<char>, PortSession<H>>,
    port_name: Seq<char>,
    data: Seq<char>,
)
    requires
        !sessions.dom().contains(port_name),
    ensures
        write_step(sessions, port_name, data, WriteEvent::Requested) == WriteActionView::Finish(
            Err(SerialErrorView::NotOpen),
        ),
{
}

/// A `write` to a port that was opened sends the whole text as UTF-8, flushes
/// once the device accepted bytes, and after the flush answers with the
/// number of bytes that the device accepted: the text's length in bytes
/// where the device took them all.
pub proof fn lemma_write_after_open<H>(
    sessions: Map<Seq<char>, PortSession<H>>,
    port_name: Seq<char>,
    settings: PortSettings,
    handle: H,
    data: Seq<char>,
    accepted: usize,
)
    ensures
        ({
            let opened = open_step(sessions, port_name, settings, OpenEvent::Opened(handle)).0;
            &&& write_step(opened, port_name, data, WriteEvent::Requested) == WriteActionView::Send(
                encode_utf8(data),
            )
            &&& write_step(opened, port_name, data, WriteEvent::Written(Ok(accepted)))
                == (WriteActionView::Flush { written: accepted })
            &&& write_step(
                opened,
                port_name,
                data,
                WriteEvent::Flushed { written: accepted, outcome: Ok(()) },
            ) == WriteActionView::Finish(Ok(accepted))
        }),
{
}

/// A failure of the device during a `write` ends the operation with a
/// `WriteError` that holds the system's message, whether the write failed or
/// the flush after it.
pub proof fn lemma_write_failures<H>(
    sessions: Map<Seq<char>, PortSession<H>>,
    port_name: Seq<char>,
    data: Seq<char>,
    written: usize,
    reason: String,
)
    ensures
        write_step(sessions, port_name, data, WriteEvent::Written(Err(reason)))
            == WriteActionView::Finish(
            Err(SerialErrorView::WriteError(WriteStage::Transmit, reason@)),
        ),
        write_step(sessions, port_name, data, WriteEvent::Flushed { written, outcome: Err(reason) })
            == WriteActionView::Finish(Err(SerialErrorView::WriteError(WriteStage::Flush, reason@))),
{
}

/// A `read` that times out without a byte answers with the empty text, not
/// with a failure.
pub proof fn lemma_timeout_reads_nothing<H>(
    sessions: Map<Seq<char>, PortSession<H>>,
    port_name: Seq<char>,
    buffer_size: usize,
)
    ensures
        read_step(sessions, port_name, buffer_size, ReadEvent::TimedOut) == ReadActionView::Finish(
            Ok(Seq::<char>::empty()),
        ),
{
}

/// After a `close` the port has no session: a `read` or a `write` ends with
/// `NotOpen`, a second `close` with `NotFound`, and an `open` asks for the
/// device again.
pub proof fn lemma_closed_port_has_no_session<H>(
    sessions: Map<Seq<char>, PortSession<H>>,
    port_name: Seq<char>,
    data: Seq<char>,
    buffer_size: usize,
    settings: PortSettings,
)
    ensures
        ({
            let closed = close_step(sessions, port_name).0;
            &&& !closed.dom().contains(port_name)
            &&& read_step(closed, port_name, buffer_size, ReadEvent::Requested)
                == ReadActionView::Finish(Err(SerialErrorView::NotOpen))
            &&& write_step(closed, port_name, data, WriteEvent::Requested)
                == WriteActionView::Finish(Err(SerialErrorView::NotOpen))
            &&& close_step(closed, port_name) == (
                closed,
                Err::<Seq<char>, SerialErrorView>(SerialErrorView::NotFound),
            )
            &&& open_step::<H>(closed, port_name, settings, OpenEvent::Requested) == (
                closed,
                OpenActionView::Connect(settings),
            )
        }),
{
}

/// A `close` succeeds exactly for a port that has a session, and touches no
/// other port's session.
pub proof fn lemma_close_removes_one<H>(sessions: Map<Seq<char>, PortSession<H>>, port_name: Seq<char>)
    ensures
        close_step(sessions, port_name).1 is Ok == sessions.dom().contains(port_name),
        forall|other: Seq<char>|
            other != port_name ==> close_step(sessions, port_name).0.dom().contains(other)
                == sessions.dom().contains(other) && close_step(sessions, port_name).0[other]
                == sessions[other],
{
}

} // verus!
