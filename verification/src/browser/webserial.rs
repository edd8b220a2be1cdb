//! A serial port of the browser.
use vstd::prelude::*;

use crate::text::{contains_text, lower, lower_text, occurs_in};
use crate::transport::{SignalState, TransportError, TransportErrorView};

verus! {

/// How long each part of a clean-up may take when a transport is dropped, in
/// milliseconds.
pub const DROP_CLEANUP_TIMEOUT_MS: i32 = 100;

/// How long closing the writer may take, in milliseconds: it can hang when the device
/// is gone.
pub const WRITER_CLOSE_TIMEOUT_MS: i32 = 200;

/// How long closing the port may take, in milliseconds.
pub const PORT_CLOSE_TIMEOUT_MS: i32 = 600;

/// How long one read may take, in milliseconds.
pub const READ_TIMEOUT_MS: i32 = 20;

/// What a failed `open` of the browser says.
#[derive(Debug)]
pub struct OpenFailure {
    /// The failure in the words of the debugger.
    pub description: String,
    /// Whether it is an object with properties.
    pub is_object: bool,
    /// Its property `name`, if that is a text.
    pub name: Option<String>,
    /// Its property `message`, if that is a text.
    pub message: Option<String>,
}

/// The failure names an invalid state: in its name if it is an object, in its
/// description otherwise.
pub open spec fn names_invalid_state(f: OpenFailure) -> bool {
    if f.is_object {
        f.name matches Some(name) && occurs_in("InvalidStateError"@, name@)
    } else {
        occurs_in("InvalidStateError"@, f.description@)
    }
}

/// What the failure says: its message if it is an object that has one, its
/// description otherwise.
pub open spec fn failure_text(f: OpenFailure) -> Seq<char> {
    if f.is_object && f.message is Some {
        f.message->0@
    } else {
        f.description@
    }
}

/// The error that a failed `open` stands for. An invalid state means that the port
/// is open already.
pub open spec fn open_error(f: OpenFailure) -> TransportErrorView {
    if names_invalid_state(f) || occurs_in("already open"@, lower(failure_text(f))) {
        TransportErrorView::AlreadyOpen
    } else {
        TransportErrorView::ConnectionFailed(failure_text(f))
    }
}

/// The error that a failed `open` stands for.
pub fn classify_open_failure(f: OpenFailure) -> (r: TransportError)
    ensures
        r@ == open_error(f),
{
    let invalid_state = if f.is_object {
        match &f.name {
            Some(name) => contains_text(name.as_str(), "InvalidStateError"),
            None => false,
        }
    } else {
        contains_text(f.description.as_str(), "InvalidStateError")
    };
    let text = if f.is_object {
        match f.message {
            Some(message) => message,
            None => f.description,
        }
    } else {
        f.description
    };
    if invalid_state || contains_text(lower_text(text.as_str()).as_str(), "already open") {
        TransportError::AlreadyOpen
    } else {
        TransportError::ConnectionFailed(text)
    }
}

/// What is to be done to close a transport, in order.
#[derive(Debug, Clone, Copy, PartialEq, Eq, Structural)]
pub enum TearDown {
    /// Cancel the reader, wait for it, and release it.
    Reader,
    /// Close the writer, wait no longer than this, and release it.
    Writer { millis: i32 },
    /// Close the port and wait no longer than this.
    Port { millis: i32 },
}

/// A serial port of the browser, by the parts of it that are held.
#[derive(Debug, Clone, Copy, PartialEq, Eq, Structural)]
pub struct WebSerialTransport {
    pub port: bool,
    pub reader: bool,
    pub writer: bool,
    /// Whether a read was begun that has not ended.
    pub pending_read: bool,
}

/// How to begin a read.
#[derive(Debug, Clone, Copy, PartialEq, Eq, Structural)]
pub enum ReadStart {
    /// Begin a new one.
    Begin,
    /// Go on waiting for the one that was begun.
    Resume,
}

/// How a read ended.
#[derive(Debug)]
pub enum ReadEnd {
    /// The time was up; the read goes on.
    TimedOut,
    /// The stream has ended.
    Done,
    /// Data came in.
    Data { bytes: Vec<u8> },
    /// What came in is no read result.
    Invalid,
    /// The wait failed; the read stays begun.
    Failed { description: String },
}

/// The parts to close, in order.
pub open spec fn tear_down_steps(
    t: WebSerialTransport,
    writer_ms: i32,
    port_ms: i32,
) -> Seq<TearDown> {
    (if t.reader {
        seq![TearDown::Reader]
    } else {
        Seq::empty()
    }) + (if t.writer {
        seq![TearDown::Writer { millis: writer_ms }]
    } else {
        Seq::empty()
    }) + (if t.port {
        seq![TearDown::Port { millis: port_ms }]
    } else {
        Seq::empty()
    })
}

impl WebSerialTransport {
    /// Nothing is held.
    pub fn new() -> (r: WebSerialTransport)
        ensures
            r == (WebSerialTransport {
                port: false,
                reader: false,
                writer: false,
                pending_read: false,
            }),
    {
        WebSerialTransport { port: false, reader: false, writer: false, pending_read: false }
    }

    /// A port was opened, with its reader and writer.
    pub fn opened(&mut self)
        ensures
            *final(self) == (WebSerialTransport {
                port: true,
                reader: true,
                writer: true,
                pending_read: false,
            }),
    {
        self.port = true;
        self.reader = true;
        self.writer = true;
        self.pending_read = false;
    }

    /// Takes over a reader and a writer without their port, as in a worker.
    pub fn attach(&mut self)
        ensures
            *final(self) == (WebSerialTransport {
                port: false,
                reader: true,
                writer: true,
                pending_read: false,
            }),
    {
        self.reader = true;
        self.writer = true;
        self.pending_read = false;
        self.port = false;
    }

    /// Whether there is a port or a reader.
    pub fn is_open(&self) -> (r: bool)
        ensures
            r == (self.port || self.reader),
    {
        self.port || self.reader
    }

    fn tear_down(&mut self, writer_ms: i32, port_ms: i32) -> (r: Vec<TearDown>)
        ensures
            r@ == tear_down_steps(*old(self), writer_ms, port_ms),
            *final(self) == (WebSerialTransport {
                port: false,
                reader: false,
                writer: false,
                pending_read: old(self).pending_read,
            }),
    {
        let mut steps: Vec<TearDown> = Vec::new();
        if self.reader {
            steps.push(TearDown::Reader);
        }
        if self.writer {
            steps.push(TearDown::Writer { millis: writer_ms });
        }
        if self.port {
            steps.push(TearDown::Port { millis: port_ms });
        }
        assert(steps@ =~= tear_down_steps(*self, writer_ms, port_ms));
        self.reader = false;
        self.writer = false;
        self.port = false;
        steps
    }

    /// Closes everything that is held: reader, writer, then port.
    pub fn close(&mut self) -> (r: Vec<TearDown>)
        ensures
            r@ == tear_down_steps(*old(self), WRITER_CLOSE_TIMEOUT_MS, PORT_CLOSE_TIMEOUT_MS),
            *final(self) == (WebSerialTransport {
                port: false,
                reader: false,
                writer: false,
                pending_read: false,
            }),
    {
        self.pending_read = false;
        self.tear_down(WRITER_CLOSE_TIMEOUT_MS, PORT_CLOSE_TIMEOUT_MS)
    }

    /// What is left to be closed when the transport is dropped; nothing if it was
    /// closed.
    pub fn abandon(&mut self) -> (r: Vec<TearDown>)
        ensures
            r@ == tear_down_steps(*old(self), DROP_CLEANUP_TIMEOUT_MS, DROP_CLEANUP_TIMEOUT_MS),
            *final(self) == (WebSerialTransport {
                port: false,
                reader: false,
                writer: false,
                pending_read: old(self).pending_read,
            }),
    {
        self.tear_down(DROP_CLEANUP_TIMEOUT_MS, DROP_CLEANUP_TIMEOUT_MS)
    }

    /// Begins a read, or goes on with the one that was begun.
    pub fn begin_read(&mut self) -> (r: Result<ReadStart, TransportError>)
        ensures
            match r {
                Ok(start) => old(self).reader && start == (if old(self).pending_read {
                    ReadStart::Resume
                } else {
                    ReadStart::Begin
                }) && *final(self) == (WebSerialTransport { pending_read: true, ..*old(self) }),
                Err(e) => !old(self).reader && e is NotConnected && *final(self) == *old(self),
            },
    {
        if !self.reader {
            return Err(TransportError::NotConnected);
        }
        let start = if self.pending_read {
            ReadStart::Resume
        } else {
            ReadStart::Begin
        };
        self.pending_read = true;
        Ok(start)
    }

    /// Takes in how a read ended, at the given time.
    pub fn end_read(&mut self, end: ReadEnd, now_us: u64) -> (r: Result<
        (Vec<u8>, u64),
        TransportError,
    >)
        ensures
            match end {
                ReadEnd::TimedOut => *final(self) == *old(self) && (r matches Ok((data, ts))
                    && data@.len() == 0 && ts == 0),
                ReadEnd::Failed { description } => *final(self) == *old(self) && (r matches Err(e)
                    && e@ == TransportErrorView::Io(description@)),
                _ => *final(self) == (WebSerialTransport { pending_read: false, ..*old(self) }),
            },
            end is Done ==> (r matches Err(e) && e@ == TransportErrorView::Io("Stream closed"@)),
            end is Invalid ==> (r matches Err(e) && e@ == TransportErrorView::Io(
                "Invalid read result"@,
            )),
            end matches ReadEnd::Data { bytes } ==> (r matches Ok((data, ts)) && data@ == bytes@
                && ts == now_us),
    {
        match end {
            ReadEnd::TimedOut => Ok((Vec::new(), 0)),
            ReadEnd::Failed { description } => Err(TransportError::Io(description)),
            ReadEnd::Done => {
                self.pending_read = false;
                Err(TransportError::Io("Stream closed".to_owned()))
            },
            ReadEnd::Invalid => {
                self.pending_read = false;
                Err(TransportError::Io("Invalid read result".to_owned()))
            },
            ReadEnd::Data { bytes } => {
                self.pending_read = false;
                Ok((bytes, now_us))
            },
        }
    }

    /// Whether data can be written.
    pub fn require_writer(&self) -> (r: Result<(), TransportError>)
        ensures
            self.writer ==> r is Ok,
            !self.writer ==> (r matches Err(e) && e is NotConnected),
    {
        if self.writer {
            Ok(())
        } else {
            Err(TransportError::NotConnected)
        }
    }

    /// Whether the port's signals can be reached.
    pub fn require_port(&self) -> (r: Result<(), TransportError>)
        ensures
            self.port ==> r is Ok,
            !self.port ==> (r matches Err(e) && e is NotConnected),
    {
        if self.port {
            Ok(())
        } else {
            Err(TransportError::NotConnected)
        }
    }
}

impl Default for WebSerialTransport {
    fn default() -> (r: WebSerialTransport)
        ensures
            r == (WebSerialTransport {
                port: false,
                reader: false,
                writer: false,
                pending_read: false,
            }),
    {
        WebSerialTransport::new()
    }
}

/// The state of the signals that the browser reports; those that the host sets are
/// not read back.
pub fn input_signals(dcd: bool, dsr: bool, ri: bool, cts: bool) -> (r: SignalState)
    ensures
        r == (SignalState { dtr: false, rts: false, dcd, dsr, ri, cts }),
{
    SignalState { dtr: false, rts: false, dcd, dsr, ri, cts }
}

/// Once closed, a transport holds nothing, and closing or dropping it again has
/// nothing to do.
pub proof fn law_closing_is_complete(t: WebSerialTransport, writer_ms: i32, port_ms: i32)
    requires
        !t.port && !t.reader && !t.writer,
    ensures
        tear_down_steps(t, writer_ms, port_ms).len() == 0,
{
}

/// A failure to open is that the port is open already exactly if it names an invalid state
/// or says, in letters of either case, "already open"; otherwise it is a failed connection,
/// in the failure's own words.
pub proof fn law_failures_to_open(f: OpenFailure)
    ensures
        ({
            let said = if f.is_object && f.message is Some {
                f.message->0@
            } else {
                f.description@
            };
            let invalid = if f.is_object {
                f.name is Some && occurs_in("InvalidStateError"@, f.name->0@)
            } else {
                occurs_in("InvalidStateError"@, f.description@)
            };
            let already = occurs_in("already open"@, lower(said));
            &&& invalid || already ==> open_error(f) is AlreadyOpen
            &&& !invalid && !already ==> open_error(f) == TransportErrorView::ConnectionFailed(
                said,
            )
        }),
{
}

/// All that is held is closed, the reader first, then the writer, then the port, each once
/// and within its own time.
pub proof fn law_all_that_is_held_is_closed(t: WebSerialTransport, writer_ms: i32, port_ms: i32)
    ensures
        ({
            let steps = tear_down_steps(t, writer_ms, port_ms);
            &&& t.reader && t.writer && t.port ==> steps == seq![
                TearDown::Reader,
                TearDown::Writer { millis: writer_ms },
                TearDown::Port { millis: port_ms },
            ]
            &&& steps.contains(TearDown::Reader) <==> t.reader
            &&& steps.contains(TearDown::Writer { millis: writer_ms }) <==> t.writer
            &&& steps.contains(TearDown::Port { millis: port_ms }) <==> t.port
            &&& forall|i: int, j: int|
                0 <= i < j < steps.len() ==> !(#[trigger] steps[j] is Reader) && !(
                #[trigger] steps[i] is Port)
        }),
{
    let steps = tear_down_steps(t, writer_ms, port_ms);
    let w: int = if t.reader {
        1
    } else {
        0
    };
    let p: int = w + if t.writer {
        1int
    } else {
        0
    };
    if t.reader {
        assert(steps[0] == TearDown::Reader);
    }
    if t.writer {
        assert(steps[w] == (TearDown::Writer { millis: writer_ms }));
    }
    if t.port {
        assert(steps[p] == (TearDown::Port { millis: port_ms }));
    }
    if t.reader && t.writer && t.port {
        assert(steps =~= seq![
            TearDown::Reader,
            TearDown::Writer { millis: writer_ms },
            TearDown::Port { millis: port_ms },
        ]);
    }
}

/// A read that was begun and has not ended is gone on with; data ends it and comes out as it
/// is, with its time; a time that is up leaves it begun and brings nothing.
pub proof fn law_reads_begin_and_end(
    t: &mut WebSerialTransport,
    begun: Result<ReadStart, TransportError>,
    end: ReadEnd,
    now_us: u64,
    r: Result<(Vec<u8>, u64), TransportError>,
)
    ensures
        call_ensures(WebSerialTransport::begin_read, (t,), begun) ==> {
            &&& begun is Ok <==> old(t).reader
            &&& begun matches Ok(start) ==> final(t).pending_read && (start is Resume <==> old(
                t
            ).pending_read)
            &&& begun matches Err(e) ==> e is NotConnected && *final(t) == *old(t)
            &&& final(t).port == old(t).port && final(t).reader == old(t).reader && final(
                t
            ).writer == old(t).writer
        },
        call_ensures(WebSerialTransport::end_read, (t, end, now_us), r) ==> {
            &&& r is Ok <==> end is TimedOut || end is Data
            &&& end matches ReadEnd::Data { bytes } ==> (r matches Ok((data, ts)) && data@
                == bytes@ && ts == now_us)
            &&& end is TimedOut ==> (r matches Ok((data, ts)) && data@.len() == 0 && ts == 0)
            &&& end matches ReadEnd::Failed { description } ==> (r matches Err(e) && e@
                == TransportErrorView::Io(description@))
            &&& end is Done ==> (r matches Err(e) && e@ == TransportErrorView::Io(
                "Stream closed"@,
            ))
            &&& end is Invalid ==> (r matches Err(e) && e@ == TransportErrorView::Io(
                "Invalid read result"@,
            ))
            &&& end is TimedOut || end is Failed ==> *final(t) == *old(t)
            &&& !(end is TimedOut || end is Failed) ==> !final(t).pending_read
            &&& final(t).port == old(t).port && final(t).reader == old(t).reader && final(
                t
            ).writer == old(t).writer
        },
{
}

/// Opening takes hold of the port with its reader and writer, attaching of the two alone;
/// closing lets go of everything and closes what was held, in 200 and 600 ms, dropping in
/// 100 each.
pub proof fn law_transport_is_taken_and_let_go(
    t: &mut WebSerialTransport,
    steps: Vec<TearDown>,
    open: bool,
)
    ensures
        call_ensures(WebSerialTransport::opened, (t,), ()) ==> final(t).port && final(t).reader
            && final(t).writer && !final(t).pending_read,
        call_ensures(WebSerialTransport::attach, (t,), ()) ==> !final(t).port && final(t).reader
            && final(t).writer && !final(t).pending_read,
        call_ensures(WebSerialTransport::close, (t,), steps) ==> !final(t).port && !final(
            t
        ).reader && !final(t).writer && !final(t).pending_read && steps@ == tear_down_steps(
            *old(t),
            200,
            600,
        ),
        call_ensures(WebSerialTransport::abandon, (t,), steps) ==> !final(t).port && !final(
            t
        ).reader && !final(t).writer && steps@ == tear_down_steps(*old(t), 100, 100),
        call_ensures(WebSerialTransport::is_open, (&*old(t),), open) ==> (open <==> old(t).port
            || old(t).reader),
{
}

/// Data needs the writer, signals need the port; the signals that come in are those that
/// the browser reports, each as itself.
pub proof fn law_what_is_needed(
    t: WebSerialTransport,
    w: Result<(), TransportError>,
    p: Result<(), TransportError>,
    dcd: bool,
    dsr: bool,
    ri: bool,
    cts: bool,
    signals: SignalState,
    f: OpenFailure,
    e: TransportError,
)
    requires
        call_ensures(WebSerialTransport::require_writer, (&t,), w),
        call_ensures(WebSerialTransport::require_port, (&t,), p),
        call_ensures(input_signals, (dcd, dsr, ri, cts), signals),
        call_ensures(classify_open_failure, (f,), e),
    ensures
        w is Ok <==> t.writer,
        p is Ok <==> t.port,
        w matches Err(x) ==> x is NotConnected,
        p matches Err(x) ==> x is NotConnected,
        signals.dcd == dcd && signals.dsr == dsr && signals.ri == ri && signals.cts == cts,
        !signals.dtr && !signals.rts,
        e@ == open_error(f),
{
}

} // verus!
