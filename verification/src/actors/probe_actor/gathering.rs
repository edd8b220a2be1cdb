//! Gathering data at one baud rate: opening the port, reading, closing it again.
use vstd::prelude::*;

use crate::actors::constants::probe::{
    EXTENDED_READ_TIMEOUT_MS, INITIAL_READ_TIMEOUT_MS, MAX_BUFFER_SIZE,
    MIN_BUFFER_FOR_HIGH_CONFIDENCE, PORT_OPEN_MAX_RETRIES, PORT_OPEN_RETRY_DELAY_MS,
    TEXT_THRESHOLD,
};
use crate::actors::probe_actor::classifier::confidence_of;
use crate::analysis::{calculate_score_8n1, score_8n1};
use crate::float::{exceeds, Double};
use crate::protocol::errors::{ActorError, ActorErrorView};
use crate::runtime::channels::PortHandle;
use crate::text::joined;
use crate::transport::{
    transport_error_text, SerialConfig, SerialConfigView, TransportError, TransportErrorView,
};

verus! {

/// What is to be done to get the port open.
#[derive(Debug)]
pub enum OpenStep {
    /// Try to open it, unless interrupted.
    Try,
    /// Wait, unless interrupted, then try again.
    Wait { millis: u64 },
    /// It is open.
    Opened,
    /// Give up.
    Failed(ActorError),
}

/// What is to be done to get the port open, with its texts as character sequences.
pub enum OpenStepView {
    Try,
    Wait { millis: u64 },
    Opened,
    Failed(ActorErrorView),
}

impl View for OpenStep {
    type V = OpenStepView;

    open spec fn view(&self) -> OpenStepView {
        match *self {
            OpenStep::Try => OpenStepView::Try,
            OpenStep::Wait { millis } => OpenStepView::Wait { millis },
            OpenStep::Opened => OpenStepView::Opened,
            OpenStep::Failed(e) => OpenStepView::Failed(e@),
        }
    }
}

/// Attempts to open a port during auto-detection.
#[derive(Debug, Clone, Copy)]
pub struct OpenAttempts {
    /// How many attempts have failed.
    pub failed: u8,
}

/// Before an attempt.
pub open spec fn before_attempt(failed: u8, interrupted: bool) -> OpenStepView {
    if failed >= PORT_OPEN_MAX_RETRIES {
        OpenStepView::Failed(ActorErrorView::Transport("Max retries exceeded opening port"@))
    } else if interrupted {
        OpenStepView::Failed(ActorErrorView::Other("Interrupted during port open"@))
    } else {
        OpenStepView::Try
    }
}

/// After an attempt. `None` is an attempt that was interrupted. A connection that
/// failed is tried again, but not after the last attempt; any other error is final.
pub open spec fn after_attempt(
    failed: u8,
    outcome: Option<Result<(), TransportErrorView>>,
    interrupted: bool,
) -> OpenStepView {
    match outcome {
        None => OpenStepView::Failed(ActorErrorView::Other("Interrupted during port open"@)),
        Some(Ok(_)) => if interrupted {
            OpenStepView::Failed(ActorErrorView::Other("Interrupted after port open"@))
        } else {
            OpenStepView::Opened
        },
        Some(Err(e)) => if e is ConnectionFailed && failed < PORT_OPEN_MAX_RETRIES - 1 {
            OpenStepView::Wait { millis: PORT_OPEN_RETRY_DELAY_MS }
        } else {
            OpenStepView::Failed(
                ActorErrorView::Transport("Failed to open port: "@ + transport_error_text(e)),
            )
        },
    }
}

/// An attempt's outcome, with its texts as character sequences.
pub open spec fn outcome_view(
    outcome: Option<Result<(), TransportError>>,
) -> Option<Result<(), TransportErrorView>> {
    match outcome {
        None => None,
        Some(Ok(_)) => Some(Ok(())),
        Some(Err(e)) => Some(Err(e@)),
    }
}

impl OpenAttempts {
    /// No attempt has failed yet.
    pub fn new() -> (r: OpenAttempts)
        ensures
            r.failed == 0,
    {
        OpenAttempts { failed: 0 }
    }

    /// What to do before an attempt.
    pub fn next(&self, interrupted: bool) -> (r: OpenStep)
        ensures
            r@ == before_attempt(self.failed, interrupted),
    {
        if self.failed >= PORT_OPEN_MAX_RETRIES {
            OpenStep::Failed(ActorError::Transport("Max retries exceeded opening port".to_owned()))
        } else if interrupted {
            OpenStep::Failed(ActorError::Other("Interrupted during port open".to_owned()))
        } else {
            OpenStep::Try
        }
    }

    /// What to do after an attempt.
    pub fn tried(
        &mut self,
        outcome: Option<Result<(), TransportError>>,
        interrupted: bool,
    ) -> (r: OpenStep)
        ensures
            r@ == after_attempt(old(self).failed, outcome_view(outcome), interrupted),
            final(self).failed == if r is Wait {
                old(self).failed + 1
            } else {
                old(self).failed as int
            },
    {
        match outcome {
            None => OpenStep::Failed(ActorError::Other("Interrupted during port open".to_owned())),
            Some(Ok(_)) => if interrupted {
                OpenStep::Failed(ActorError::Other("Interrupted after port open".to_owned()))
            } else {
                OpenStep::Opened
            },
            Some(Err(e)) => {
                let again = match &e {
                    TransportError::ConnectionFailed(_) => self.failed < PORT_OPEN_MAX_RETRIES - 1,
                    _ => false,
                };
                if again {
                    self.failed = self.failed + 1;
                    OpenStep::Wait { millis: PORT_OPEN_RETRY_DELAY_MS }
                } else {
                    OpenStep::Failed(
                        ActorError::Transport(joined("Failed to open port: ", e.message().as_str())),
                    )
                }
            },
        }
    }

    /// What to do after the wait, which ended early if it was interrupted.
    pub fn waited(&self, completed: bool) -> (r: Result<(), ActorError>)
        ensures
            completed ==> r is Ok,
            !completed ==> (r matches Err(e) && e@ == ActorErrorView::Other(
                "Interrupted during retry delay"@,
            )),
    {
        if completed {
            Ok(())
        } else {
            Err(ActorError::Other("Interrupted during retry delay".to_owned()))
        }
    }
}

/// Reading at one baud rate.
#[derive(Debug)]
pub struct ProbeReading {
    pub buffer: Vec<u8>,
    /// How long to read altogether, in milliseconds.
    pub max_time_ms: u64,
}

/// There is enough that looks like text.
pub open spec fn reads_as_text(buffer: Seq<u8>) -> bool {
    buffer.len() > MIN_BUFFER_FOR_HIGH_CONFIDENCE && exceeds(
        confidence_of(score_8n1(buffer)),
        Double { bits: TEXT_THRESHOLD },
    )
}

impl ProbeReading {
    /// Nothing has been read.
    pub fn new() -> (r: ProbeReading)
        ensures
            r.buffer@.len() == 0,
            r.max_time_ms == INITIAL_READ_TIMEOUT_MS,
    {
        ProbeReading { buffer: Vec::new(), max_time_ms: INITIAL_READ_TIMEOUT_MS }
    }

    /// How long to wait for the next data, in milliseconds: what is left of the
    /// time, but at least ten. `None` once the time is over.
    pub fn next_wait(&self, elapsed_ms: u64) -> (r: Option<u64>)
        ensures
            elapsed_ms > self.max_time_ms ==> r is None,
            elapsed_ms <= self.max_time_ms ==> r == Some(
                if self.max_time_ms - elapsed_ms < 10 {
                    10u64
                } else {
                    (self.max_time_ms - elapsed_ms) as u64
                },
            ),
    {
        if elapsed_ms > self.max_time_ms {
            None
        } else if self.max_time_ms - elapsed_ms < 10 {
            Some(10)
        } else {
            Some(self.max_time_ms - elapsed_ms)
        }
    }

    /// Takes in data, and says whether to read on. Any data gives the rest more time.
    pub fn received(&mut self, bytes: &[u8]) -> (r: bool)
        ensures
            final(self).buffer@ == old(self).buffer@ + bytes@,
            ({
                let full = bytes@.len() > 0 && final(self).buffer@.len() > MAX_BUFFER_SIZE;
                &&& r == !(full || reads_as_text(final(self).buffer@))
                &&& final(self).max_time_ms == if bytes@.len() > 0 && !full {
                    EXTENDED_READ_TIMEOUT_MS
                } else {
                    old(self).max_time_ms
                }
            }),
    {
        if bytes.len() > 0 {
            let mut more = vstd::slice::slice_to_vec(bytes);
            self.buffer.append(&mut more);
            if self.buffer.len() > MAX_BUFFER_SIZE {
                return false;
            }
            self.max_time_ms = EXTENDED_READ_TIMEOUT_MS;
        }
        assert(self.buffer@ =~= old(self).buffer@ + bytes@);
        !(self.buffer.len() > MIN_BUFFER_FOR_HIGH_CONFIDENCE && calculate_score_8n1(
            self.buffer.as_slice(),
        ).widen().exceeds(Double { bits: TEXT_THRESHOLD }))
    }
}

/// What follows closing the port: an interruption that came while it was closed
/// ends the gathering.
pub fn after_close(closed: bool, interrupted: bool) -> (r: Result<(), ActorError>)
    ensures
        closed && interrupted ==> (r matches Err(e) && e@ == ActorErrorView::Other(
            "Interrupted after port close"@,
        )),
        !(closed && interrupted) ==> r is Ok,
{
    if closed && interrupted {
        Err(ActorError::Other("Interrupted after port close".to_owned()))
    } else {
        Ok(())
    }
}

/// What follows the pause after closing the port, which ended early if it was
/// interrupted.
pub fn after_cooldown(completed: bool, interrupted: bool) -> (r: Result<(), ActorError>)
    ensures
        !completed ==> (r matches Err(e) && e@ == ActorErrorView::Other(
            "Interrupted during cooldown"@,
        )),
        completed && interrupted ==> (r matches Err(e) && e@ == ActorErrorView::Other(
            "Interrupted after cleanup"@,
        )),
        completed && !interrupted ==> r is Ok,
{
    if !completed {
        Err(ActorError::Other("Interrupted during cooldown".to_owned()))
    } else if interrupted {
        Err(ActorError::Other("Interrupted after cleanup".to_owned()))
    } else {
        Ok(())
    }
}

/// The settings that data is gathered with: 8N1 without flow control.
pub fn probe_config(baud: u32) -> (r: SerialConfig)
    ensures
        r@ == (SerialConfigView {
            baud_rate: baud,
            data_bits: 8,
            flow_control: "none"@,
            parity: "none"@,
            stop_bits: 1,
        }),
{
    SerialConfig {
        baud_rate: baud,
        data_bits: 8,
        flow_control: "none".to_owned(),
        parity: "none".to_owned(),
        stop_bits: 1,
    }
}

/// The port object to gather data from.
pub fn probe_port(handle: Option<PortHandle>) -> (r: Result<PortHandle, ActorError>)
    ensures
        match handle {
            Some(h) => r == Ok::<PortHandle, ActorError>(h),
            None => r matches Err(e) && e@ == ActorErrorView::Transport(
                "Port handle unavailable for probing - ensure Connect was called with port"@,
            ),
        },
{
    match handle {
        Some(h) => Ok(h),
        None => Err(
            ActorError::Transport(
                "Port handle unavailable for probing - ensure Connect was called with port"
                    .to_owned(),
            ),
        ),
    }
}

/// A port that keeps failing is given up after as many attempts as are allowed,
/// with a wait before each but the first.
pub proof fn law_attempts_are_bounded(failed: u8, reason: Seq<char>)
    requires
        failed < PORT_OPEN_MAX_RETRIES,
    ensures
        ({
            let step = after_attempt(
                failed,
                Some(Err(TransportErrorView::ConnectionFailed(reason))),
                false,
            );
            &&& before_attempt(failed, false) is Try
            &&& step is Wait <==> failed + 1 < PORT_OPEN_MAX_RETRIES
            &&& step is Failed <==> failed + 1 == PORT_OPEN_MAX_RETRIES
        }),
{
}

/// A port is tried at most five times, while nothing interrupts: after a connection that
/// failed for the first four times, 200 ms later; after any other error not again.
pub proof fn law_attempts_while_probing(
    failed: u8,
    e: TransportErrorView,
    interrupted: bool,
)
    ensures
        failed < 5 && !interrupted ==> before_attempt(failed, interrupted) is Try,
        failed >= 5 ==> before_attempt(failed, interrupted) == OpenStepView::Failed(
            ActorErrorView::Transport("Max retries exceeded opening port"@),
        ),
        failed < 5 && interrupted ==> before_attempt(failed, interrupted) == OpenStepView::Failed(
            ActorErrorView::Other("Interrupted during port open"@),
        ),
        after_attempt(failed, Some(Ok(())), false) is Opened,
        after_attempt(failed, Some(Ok(())), true) == OpenStepView::Failed(
            ActorErrorView::Other("Interrupted after port open"@),
        ),
        after_attempt(failed, None, interrupted) == OpenStepView::Failed(
            ActorErrorView::Other("Interrupted during port open"@),
        ),
        e is ConnectionFailed && failed < 4 ==> after_attempt(failed, Some(Err(e)), interrupted)
            == (OpenStepView::Wait { millis: 200 }),
        !(e is ConnectionFailed && failed < 4) ==> after_attempt(
            failed,
            Some(Err(e)),
            interrupted,
        ) == OpenStepView::Failed(
            ActorErrorView::Transport("Failed to open port: "@ + transport_error_text(e)),
        ),
{
}

/// Enough was read once there are more than 64 bytes that are text by more than 0.9.
pub proof fn law_when_text_is_enough(buffer: Seq<u8>)
    ensures
        buffer.len() <= 64 ==> !reads_as_text(buffer),
        buffer.len() > 64 ==> (reads_as_text(buffer) <==> exceeds(
            Double { bits: crate::float::widened(score_8n1(buffer) as u32) as u64 },
            Double { bits: 0x3FEC_CCCC_CCCC_CCCD },
        )),
{
}

/// What is left of the time is waited for, but at least ten milliseconds, and nothing once
/// the time is over. What comes in is kept behind what came before. Reading goes on until
/// there are more than 200 bytes, or more than 64 that read as text; the first data, and any
/// that leaves room, give it 250 ms in place of 150.
pub proof fn law_reading_goes_on(
    begun: ProbeReading,
    reading: &mut ProbeReading,
    bytes: &[u8],
    goes_on: bool,
    elapsed_ms: u64,
    wait: Option<u64>,
)
    requires
        call_ensures(ProbeReading::new, (), begun),
        call_ensures(ProbeReading::received, (reading, bytes), goes_on),
        call_ensures(ProbeReading::next_wait, (&*old(reading), elapsed_ms), wait),
    ensures
        begun.buffer@.len() == 0 && begun.max_time_ms == 150,
        wait is None <==> elapsed_ms > old(reading).max_time_ms,
        wait matches Some(w) ==> w >= 10 && (w > 10 ==> w + elapsed_ms == old(
            reading
        ).max_time_ms) && w + elapsed_ms >= old(reading).max_time_ms,
        final(reading).buffer@ == old(reading).buffer@ + bytes@,
        bytes@.len() > 0 && old(reading).buffer@.len() + bytes@.len() > 200 ==> !goes_on,
        bytes@.len() > 0 && old(reading).buffer@.len() + bytes@.len() <= 200 ==> final(
            reading
        ).max_time_ms == 250,
        bytes@.len() == 0 ==> final(reading).max_time_ms == old(reading).max_time_ms,
        old(reading).buffer@.len() + bytes@.len() <= 64 ==> goes_on,
        goes_on ==> !reads_as_text(old(reading).buffer@ + bytes@),
{
}

/// Attempts that fail and are made again are counted, and no others; interruptions are
/// told by when they came.
pub proof fn law_gathering_steps(
    attempts: &mut OpenAttempts,
    outcome: Option<Result<(), TransportError>>,
    interrupted: bool,
    completed: bool,
    step: OpenStep,
    next: OpenStep,
    waited: Result<(), ActorError>,
    closed: Result<(), ActorError>,
    cooled: Result<(), ActorError>,
)
    requires
        call_ensures(OpenAttempts::tried, (attempts, outcome, interrupted), step),
        call_ensures(OpenAttempts::next, (&*old(attempts), interrupted), next),
        call_ensures(OpenAttempts::waited, (&*old(attempts), completed), waited),
        call_ensures(after_close, (completed, interrupted), closed),
        call_ensures(after_cooldown, (completed, interrupted), cooled),
    ensures
        step@ == after_attempt(old(attempts).failed, outcome_view(outcome), interrupted),
        next@ == before_attempt(old(attempts).failed, interrupted),
        step@ is Wait ==> final(attempts).failed == old(attempts).failed + 1,
        !(step@ is Wait) ==> final(attempts).failed == old(attempts).failed,
        waited is Ok <==> completed,
        waited matches Err(e) ==> e@ == ActorErrorView::Other("Interrupted during retry delay"@),
        closed is Err <==> completed && interrupted,
        closed matches Err(e) ==> e@ == ActorErrorView::Other("Interrupted after port close"@),
        cooled is Ok <==> completed && !interrupted,
        cooled matches Err(e) ==> e@ == ActorErrorView::Other(
            if completed {
                "Interrupted after cleanup"@
            } else {
                "Interrupted during cooldown"@
            },
        ),
{
}

/// Data is gathered at the given rate as 8N1, and from the given port object.
pub proof fn law_gathering_settings(
    baud: u32,
    config: SerialConfig,
    handle: Option<PortHandle>,
    port: Result<PortHandle, ActorError>,
)
    requires
        call_ensures(probe_config, (baud,), config),
        call_ensures(probe_port, (handle,), port),
    ensures
        config.baud_rate == baud && config.data_bits == 8 && config.stop_bits == 1,
        config.parity@ == "none"@ && config.flow_control@ == "none"@,
        handle matches Some(h) ==> (port matches Ok(p) && p == h),
        handle is None ==> (port matches Err(e) && e@ is Transport),
{
}

} // verus!
