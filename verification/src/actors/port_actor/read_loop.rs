//! What becomes of the data that is read from the port.
use vstd::prelude::*;
use vstd::slice::{slice_subrange, slice_to_vec};

use crate::protocol::messages::{SystemEvent, SystemEventView};

verus! {

/// How one read went.
#[derive(Debug)]
pub enum ReadOutcome {
    /// Data came in; none if the read timed out.
    Data { data: Vec<u8>, timestamp_us: u64 },
    /// The read failed.
    Failed,
    /// The loop was told to end.
    Shutdown,
}

/// What is to be done after a read.
#[derive(Debug)]
pub struct ReadTurn {
    /// Events for the user interface, in order.
    pub events: Vec<SystemEvent>,
    /// Whether the state actor is to be told, before the events, that the
    /// connection is lost.
    pub lost: bool,
    /// Whether to read again; otherwise the port is closed.
    pub go_on: bool,
}

/// What is to be done after a read, with its texts as character sequences.
pub struct ReadTurnView {
    pub events: Seq<SystemEventView>,
    pub lost: bool,
    pub go_on: bool,
}

/// The events of a list, one by one.
pub open spec fn events_view(events: Seq<SystemEvent>) -> Seq<SystemEventView> {
    events.map_values(|e: SystemEvent| e@)
}

impl View for ReadTurn {
    type V = ReadTurnView;

    open spec fn view(&self) -> ReadTurnView {
        ReadTurnView { events: events_view(self.events@), lost: self.lost, go_on: self.go_on }
    }
}

/// The loop that reads from an open port.
#[derive(Debug)]
pub struct ReadLoop {
    /// Whether the next data may begin with the echo of a wake-up.
    pub check_suppress: bool,
}

/// A byte that the echo of a wake-up may consist of.
pub open spec fn is_echo(b: u8) -> bool {
    b == 0x0D || b == 0x0A || b == 0
}

/// The number of bytes at the front that may be an echo.
pub open spec fn echo_len(data: Seq<u8>) -> nat
    decreases data.len(),
{
    if data.len() > 0 && is_echo(data[0]) {
        1 + echo_len(data.skip(1))
    } else {
        0
    }
}

/// What is passed on of a read.
pub open spec fn passed_on(suppress: bool, data: Seq<u8>) -> Seq<u8> {
    if suppress {
        data.skip(echo_len(data) as int)
    } else {
        data
    }
}

/// The events for data that came in: none for no data.
pub open spec fn data_events(data: Seq<u8>, timestamp_us: u64) -> Seq<SystemEventView> {
    if data.len() == 0 {
        Seq::empty()
    } else {
        seq![SystemEventView::DataReceived { data, timestamp_us }, SystemEventView::RxActivity]
    }
}

/// What is done after a read, and whether an echo is still expected.
pub open spec fn after_read(suppress: bool, outcome: ReadOutcome) -> (bool, ReadTurnView) {
    match outcome {
        ReadOutcome::Data { data, timestamp_us } => (
            suppress && data@.len() == 0,
            ReadTurnView {
                events: data_events(passed_on(suppress, data@), timestamp_us),
                lost: false,
                go_on: true,
            },
        ),
        ReadOutcome::Failed => (
            suppress,
            ReadTurnView {
                events: seq![SystemEventView::Error { message: "Connection lost"@ }],
                lost: true,
                go_on: false,
            },
        ),
        ReadOutcome::Shutdown => (
            suppress,
            ReadTurnView { events: Seq::empty(), lost: false, go_on: false },
        ),
    }
}

proof fn lemma_echo_len(data: Seq<u8>, n: int)
    requires
        0 <= n <= data.len(),
        forall|i: int| 0 <= i < n ==> is_echo(data[i]),
        n < data.len() ==> !is_echo(data[n]),
    ensures
        echo_len(data) == n,
    decreases n,
{
    if n > 0 {
        lemma_echo_len(data.skip(1), n - 1);
    }
}

/// The echo is exactly the run of echo bytes at the front.
pub proof fn law_echo_is_the_leading_run(data: Seq<u8>)
    ensures
        echo_len(data) <= data.len(),
        forall|i: int| 0 <= i < echo_len(data) ==> is_echo(data[i]),
        echo_len(data) < data.len() ==> !is_echo(data[echo_len(data) as int]),
    decreases data.len(),
{
    if data.len() > 0 && is_echo(data[0]) {
        law_echo_is_the_leading_run(data.skip(1));
        assert forall|i: int| 0 <= i < echo_len(data) implies is_echo(data[i]) by {
            if i > 0 {
                assert(data[i] == data.skip(1)[i - 1]);
            }
        }
    }
}

/// The events for data that came in: none for no data.
pub fn events_for(data: Vec<u8>, timestamp_us: u64) -> (r: Vec<SystemEvent>)
    ensures
        events_view(r@) == data_events(data@, timestamp_us),
{
    let mut events: Vec<SystemEvent> = Vec::new();
    if data.len() > 0 {
        events.push(SystemEvent::DataReceived { data, timestamp_us });
        events.push(SystemEvent::RxActivity);
    }
    assert(events_view(events@) =~= data_events(data@, timestamp_us));
    events
}

impl ReadLoop {
    /// A loop that has read nothing. After a wake-up its echo is expected.
    pub fn new(suppress_echo: bool) -> (r: ReadLoop)
        ensures
            r.check_suppress == suppress_echo,
    {
        ReadLoop { check_suppress: suppress_echo }
    }

    /// Takes in one read.
    pub fn take(&mut self, outcome: ReadOutcome) -> (r: ReadTurn)
        ensures
            (final(self).check_suppress, r@) == after_read(old(self).check_suppress, outcome),
    {
        match outcome {
            ReadOutcome::Data { data, timestamp_us } => {
                if data.len() == 0 {
                    let events = events_for(data, timestamp_us);
                    assert(passed_on(self.check_suppress, data@) =~= data@) by {
                        law_echo_is_the_leading_run(data@);
                    }
                    return ReadTurn { events, lost: false, go_on: true };
                }
                let data = if self.check_suppress {
                    self.check_suppress = false;
                    Self::without_echo(data)
                } else {
                    data
                };
                ReadTurn { events: events_for(data, timestamp_us), lost: false, go_on: true }
            },
            ReadOutcome::Failed => {
                let mut events: Vec<SystemEvent> = Vec::new();
                events.push(SystemEvent::Error { message: "Connection lost".to_owned() });
                assert(events_view(events@) =~= seq![
                    SystemEventView::Error { message: "Connection lost"@ },
                ]);
                ReadTurn { events, lost: true, go_on: false }
            },
            ReadOutcome::Shutdown => {
                let events: Vec<SystemEvent> = Vec::new();
                assert(events_view(events@) =~= Seq::empty());
                ReadTurn { events, lost: false, go_on: false }
            },
        }
    }

    fn without_echo(data: Vec<u8>) -> (r: Vec<u8>)
        ensures
            r@ == passed_on(true, data@),
    {
        let mut start: usize = 0;
        while start < data.len() && (data[start] == 0x0D || data[start] == 0x0A || data[start]
            == 0)
            invariant
                start <= data.len(),
                forall|i: int| 0 <= i < start ==> is_echo(data@[i]),
            decreases data.len() - start,
        {
            start += 1;
        }
        proof {
            lemma_echo_len(data@, start as int);
        }
        let rest = slice_subrange(data.as_slice(), start, data.len());
        assert(rest@ =~= data@.skip(start as int));
        slice_to_vec(rest)
    }
}

/// The bytes that reach the user interface from a run of reads.
pub open spec fn delivered(suppress: bool, reads: Seq<Seq<u8>>) -> Seq<u8>
    decreases reads.len(),
{
    if reads.len() == 0 {
        Seq::empty()
    } else {
        passed_on(suppress, reads[0]) + delivered(
            suppress && reads[0].len() == 0,
            reads.drop_first(),
        )
    }
}

/// All bytes of a run of reads.
pub open spec fn all_bytes(reads: Seq<Seq<u8>>) -> Seq<u8>
    decreases reads.len(),
{
    if reads.len() == 0 {
        Seq::empty()
    } else {
        reads[0] + all_bytes(reads.drop_first())
    }
}

/// Without a wake-up every byte that is read is passed on, in order; after a wake-up
/// at most some echo bytes at the very front are not.
pub proof fn law_no_received_byte_is_lost(suppress: bool, reads: Seq<Seq<u8>>)
    ensures
        !suppress ==> delivered(suppress, reads) == all_bytes(reads),
        exists|n: int|
            0 <= n <= all_bytes(reads).len() && delivered(suppress, reads) == all_bytes(reads).skip(
                n,
            ) && forall|i: int| 0 <= i < n ==> is_echo(#[trigger] all_bytes(reads)[i]),
    decreases reads.len(),
{
    let all = all_bytes(reads);
    if !suppress {
        if reads.len() > 0 {
            law_no_received_byte_is_lost(false, reads.drop_first());
        }
        assert(delivered(suppress, reads) =~= all.skip(0));
    } else if reads.len() == 0 {
        assert(delivered(suppress, reads) =~= all.skip(0));
    } else {
        let rest = reads.drop_first();
        let n = echo_len(reads[0]) as int;
        law_echo_is_the_leading_run(reads[0]);
        if reads[0].len() == 0 {
            law_no_received_byte_is_lost(true, rest);
            assert(all =~= all_bytes(rest));
            assert(delivered(suppress, reads) =~= delivered(true, rest));
        } else {
            law_no_received_byte_is_lost(false, rest);
            assert(delivered(suppress, reads) =~= all.skip(n));
            assert forall|i: int| 0 <= i < n implies is_echo(#[trigger] all[i]) by {
                assert(all[i] == reads[0][i]);
            }
        }
    }
}

/// Data that is read while no echo is expected is told as it came, at the time it came,
/// with a sign of activity; a read without data tells nothing; and both go on reading.
pub proof fn law_read_data_is_told(data: Vec<u8>, timestamp_us: u64)
    ensures
        data@.len() > 0 ==> after_read(false, ReadOutcome::Data { data, timestamp_us }) == (
            false,
            ReadTurnView {
                events: seq![
                    SystemEventView::DataReceived { data: data@, timestamp_us },
                    SystemEventView::RxActivity,
                ],
                lost: false,
                go_on: true,
            },
        ),
        forall|suppress: bool|
            data@.len() == 0 ==> #[trigger] after_read(
                suppress,
                ReadOutcome::Data { data, timestamp_us },
            ) == (
                suppress,
                ReadTurnView { events: Seq::empty(), lost: false, go_on: true },
            ),
{
    assert forall|suppress: bool| data@.len() == 0 implies #[trigger] after_read(
        suppress,
        ReadOutcome::Data { data, timestamp_us },
    ) == (suppress, ReadTurnView { events: Seq::empty(), lost: false, go_on: true }) by {
        law_echo_is_the_leading_run(data@);
    }
}

/// The first data after a wake-up is told without the line ends and nulls at its front, and
/// not at all where it consists of them; after it no echo is expected any more.
pub proof fn law_echo_is_taken_off_once(
    data: Vec<u8>,
    echo: Seq<u8>,
    content: Seq<u8>,
    timestamp_us: u64,
)
    requires
        data@ == echo + content,
        data@.len() > 0,
        forall|i: int|
            0 <= i < echo.len() ==> #[trigger] echo[i] == 13 || echo[i] == 10 || echo[i] == 0,
        content.len() > 0 ==> content[0] != 13 && content[0] != 10 && content[0] != 0,
    ensures
        content.len() > 0 ==> after_read(true, ReadOutcome::Data { data, timestamp_us }) == (
            false,
            ReadTurnView {
                events: seq![
                    SystemEventView::DataReceived { data: content, timestamp_us },
                    SystemEventView::RxActivity,
                ],
                lost: false,
                go_on: true,
            },
        ),
        content.len() == 0 ==> after_read(true, ReadOutcome::Data { data, timestamp_us }) == (
            false,
            ReadTurnView { events: Seq::empty(), lost: false, go_on: true },
        ),
{
    let n = echo.len() as int;
    assert forall|i: int| 0 <= i < n implies is_echo(data@[i]) by {
        assert(data@[i] == echo[i]);
    }
    if n < data@.len() {
        assert(data@[n] == content[0]);
    }
    lemma_echo_len(data@, n);
    assert(data@.skip(n) =~= content);
}

/// A read that fails means that the connection is lost, which is told, and ends reading; so
/// does being told to end, of which nothing is told.
pub proof fn law_reading_ends(suppress: bool)
    ensures
        after_read(suppress, ReadOutcome::Failed).1 == (ReadTurnView {
            events: seq![SystemEventView::Error { message: "Connection lost"@ }],
            lost: true,
            go_on: false,
        }),
        after_read(suppress, ReadOutcome::Shutdown).1 == (ReadTurnView {
            events: Seq::empty(),
            lost: false,
            go_on: false,
        }),
{
}

/// Reads are taken in as the model has it.
pub proof fn law_reads_are_taken_in(
    reads: &mut ReadLoop,
    outcome: ReadOutcome,
    r: ReadTurn,
    data: Vec<u8>,
    timestamp_us: u64,
    events: Vec<SystemEvent>,
)
    requires
        call_ensures(ReadLoop::take, (reads, outcome), r),
        call_ensures(events_for, (data, timestamp_us), events),
    ensures
        (final(reads).check_suppress, r@) == after_read(old(reads).check_suppress, outcome),
        events_view(events@) == data_events(data@, timestamp_us),
{
}

} // verus!
