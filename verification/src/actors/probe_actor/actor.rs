//! The search over baud rates.
use vstd::prelude::*;

use crate::actors::constants::probe::{
    HIGH_SPEED_THRESHOLD, MIN_BUFFER_FOR_HIGH_CONFIDENCE, MIN_CONFIDENCE, PERFECT_MATCH_THRESHOLD,
    STANDARD_THRESHOLD,
};
use crate::actors::constants::BAUD_CANDIDATES;
use crate::actors::probe_actor::classifier::{
    analyze_buffer, classified, holds_packet, result_view, ProbeResultView,
};
use crate::float::{exceeds, Double};
use crate::protocol::errors::{ActorError, ActorErrorView};
use crate::protocol::messages::{
    clone_opt_text, opt_text, ProbeResult, SystemEvent, SystemEventView,
};
use crate::runtime::channels::{PortHandle, ProbeMessage, StateMessage};
use crate::text::{
    contains_text, decimal, decimal_text, joined, law_what_occurs_is_mentioned, occurs_in,
};

verus! {

/// What the search reports to the state actor.
pub enum ReportView {
    /// The settings that were found.
    Found { baud: u32, framing: Seq<char>, protocol: Option<Seq<char>>, initial_data: Seq<u8> },
    /// Why nothing was found.
    Failed { reason: Seq<char> },
}

/// The report that a message to the state actor is; `None` for any other message.
pub open spec fn report_view(msg: StateMessage) -> Option<ReportView> {
    match msg {
        StateMessage::ProbeComplete { baud, framing, protocol, initial_data } => Some(
            ReportView::Found {
                baud,
                framing: framing@,
                protocol: opt_text(protocol),
                initial_data: initial_data@,
            },
        ),
        StateMessage::ConnectionFailed { reason } => Some(
            ReportView::Failed { reason: reason@ },
        ),
        _ => None,
    }
}

/// What is to be done next.
pub enum ProbeStep {
    /// Gather data at this baud rate, then hand it to `gathered`.
    Gather { baud: u32 },
    /// Wait, then go on with `proceed`.
    Pause { millis: u64 },
    /// Send this to the state actor, then finish with `report_result`.
    Report { msg: StateMessage, on_failure: &'static str },
    /// The search is over.
    Finished(Result<(), ActorError>),
}

/// What is to be done next, with its texts as character sequences.
pub enum ProbeStepView {
    Gather { baud: u32 },
    Pause { millis: u64 },
    Report { report: Option<ReportView>, on_failure: Seq<char> },
    Finished(Result<(), ActorErrorView>),
}

impl View for ProbeStep {
    type V = ProbeStepView;

    open spec fn view(&self) -> ProbeStepView {
        match *self {
            ProbeStep::Gather { baud } => ProbeStepView::Gather { baud },
            ProbeStep::Pause { millis } => ProbeStepView::Pause { millis },
            ProbeStep::Report { msg, on_failure } => ProbeStepView::Report {
                report: report_view(msg),
                on_failure: on_failure@,
            },
            ProbeStep::Finished(r) => ProbeStepView::Finished(
                match r {
                    Ok(_) => Ok(()),
                    Err(e) => Err(e@),
                },
            ),
        }
    }
}

/// An event for the user interface, if there is one, and what is to be done next.
pub struct ProbeTurn {
    pub event: Option<SystemEvent>,
    pub step: ProbeStep,
}

/// A turn of the search, with its texts as character sequences.
pub struct ProbeTurnView {
    pub event: Option<SystemEventView>,
    pub step: ProbeStepView,
}

impl View for ProbeTurn {
    type V = ProbeTurnView;

    open spec fn view(&self) -> ProbeTurnView {
        ProbeTurnView {
            event: match self.event {
                Some(e) => Some(e@),
                None => None,
            },
            step: self.step@,
        }
    }
}

/// The actor that detects a port's settings.
#[derive(Debug)]
pub struct ProbeActor {
    /// Whether the search is to stop.
    pub interrupt_flag: bool,
    /// Whether ports are a browser's port objects; there a failed attempt is
    /// followed by a pause.
    pub browser: bool,
    /// How many baud rates have been taken up.
    pub tried: usize,
    /// The best result so far.
    pub best_result: ProbeResult,
    /// The confidence of the best result so far.
    pub best_score: Double,
    pub last_error: Option<String>,
    /// The port object that data is gathered from.
    pub port_handle: Option<PortHandle>,
}

/// The actor's state, with its texts as character sequences.
pub struct SearchView {
    pub interrupted: bool,
    pub browser: bool,
    pub tried: int,
    pub best: ProbeResultView,
    pub best_score: Double,
    pub last_error: Option<Seq<char>>,
    pub port_handle: Option<PortHandle>,
}

impl View for ProbeActor {
    type V = SearchView;

    open spec fn view(&self) -> SearchView {
        SearchView {
            interrupted: self.interrupt_flag,
            browser: self.browser,
            tried: self.tried as int,
            best: result_view(self.best_result),
            best_score: self.best_score,
            last_error: opt_text(self.last_error),
            port_handle: self.port_handle,
        }
    }
}

/// What is taken as found before anything was.
pub open spec fn no_result() -> ProbeResultView {
    ProbeResultView {
        baud: 115200,
        framing: "8N1"@,
        protocol: None,
        initial_data: Seq::empty(),
        confidence: Double { bits: 0 },
    }
}

/// A search of a port that has tried nothing.
pub open spec fn fresh_search(browser: bool, port_handle: Option<PortHandle>) -> SearchView {
    SearchView {
        interrupted: false,
        browser,
        tried: 0,
        best: no_result(),
        best_score: Double { bits: 0 },
        last_error: None,
        port_handle,
    }
}

/// The turn that ends the search: the best result, if its confidence is enough.
pub open spec fn conclusion(s: SearchView) -> ProbeTurnView {
    ProbeTurnView {
        event: None,
        step: if exceeds(s.best_score, Double { bits: MIN_CONFIDENCE }) {
            ProbeStepView::Report {
                report: Some(
                    ReportView::Found {
                        baud: s.best.baud,
                        framing: s.best.framing,
                        protocol: s.best.protocol,
                        initial_data: s.best.initial_data,
                    },
                ),
                on_failure: "StateActor unavailable during ProbeComplete"@,
            }
        } else {
            ProbeStepView::Report {
                report: Some(
                    ReportView::Failed {
                        reason: match s.last_error {
                            Some(e) => "Auto-detection passed with errors. Last error: "@ + e,
                            None => "Auto-detection failed: no valid signal detected"@,
                        },
                    },
                ),
                on_failure: "StateActor unavailable during probe failure"@,
            }
        },
    }
}

/// Takes up the next baud rate; ends the search where there is none, or where it
/// is to stop.
pub open spec fn proceeding(s: SearchView) -> (SearchView, ProbeTurnView) {
    if s.tried >= BAUD_CANDIDATES@.len() {
        (s, conclusion(s))
    } else if s.interrupted {
        (
            s,
            ProbeTurnView {
                event: Some(
                    SystemEventView::StatusUpdate { message: "Auto-detection cancelled"@ },
                ),
                step: ProbeStepView::Finished(Err(ActorErrorView::Other("Probe aborted"@))),
            },
        )
    } else {
        let baud = BAUD_CANDIDATES@[s.tried];
        (
            SearchView { tried: s.tried + 1, ..s },
            ProbeTurnView {
                event: Some(
                    SystemEventView::ProbeProgress {
                        baud,
                        message: "Scanning "@ + decimal(baud as nat) + " baud..."@,
                    },
                ),
                step: ProbeStepView::Gather { baud },
            },
        )
    }
}

/// The search with one more result: the more confident one is kept, the earlier
/// one where they are equal.
pub open spec fn improved(s: SearchView, r: ProbeResultView) -> SearchView {
    if exceeds(r.confidence, s.best_score) {
        SearchView { best: r, best_score: r.confidence, ..s }
    } else {
        s
    }
}

/// The confidence is enough to end the search at this baud rate, with so much data.
pub open spec fn settles(score: Double, baud: u32, len: nat) -> bool {
    let threshold = if baud >= 1_000_000 {
        HIGH_SPEED_THRESHOLD
    } else {
        STANDARD_THRESHOLD
    };
    exceeds(score, Double { bits: threshold }) || (exceeds(
        score,
        Double { bits: PERFECT_MATCH_THRESHOLD },
    ) && len > MIN_BUFFER_FOR_HIGH_CONFIDENCE)
}

/// A transport error that no other baud rate will mend.
pub open spec fn is_fatal(msg: Seq<char>) -> bool {
    occurs_in("AlreadyOpen"@, msg) || occurs_in("InvalidState"@, msg)
}

/// Takes a result into account, and ends the search or goes on.
pub open spec fn weighing(
    s: SearchView,
    r: ProbeResultView,
    baud: u32,
    len: nat,
) -> (SearchView, ProbeTurnView) {
    let next = improved(s, r);
    if settles(next.best_score, baud, len) {
        (next, conclusion(next))
    } else {
        proceeding(next)
    }
}

/// No data could be gathered: a fatal error ends the search, another transport
/// error does not, any other error is passed on.
pub open spec fn failing(s: SearchView, e: ActorErrorView) -> (SearchView, ProbeTurnView) {
    match e {
        ActorErrorView::Transport(msg) => if is_fatal(msg) {
            (
                s,
                ProbeTurnView {
                    event: None,
                    step: ProbeStepView::Report {
                        report: Some(ReportView::Failed { reason: "Probe halted: "@ + msg }),
                        on_failure: "StateActor unavailable during probe fatal error"@,
                    },
                },
            )
        } else {
            let next = SearchView { last_error: Some(msg), ..s };
            if s.browser {
                (next, ProbeTurnView { event: None, step: ProbeStepView::Pause { millis: 500 } })
            } else {
                proceeding(next)
            }
        },
        _ => (s, ProbeTurnView { event: None, step: ProbeStepView::Finished(Err(e)) }),
    }
}

/// Begins a search, or asks for it to stop.
pub open spec fn handling(s: SearchView, msg: ProbeMessage) -> (SearchView, ProbeTurnView) {
    match msg {
        ProbeMessage::Start { port: _, port_handle } => proceeding(
            fresh_search(s.browser, port_handle),
        ),
        ProbeMessage::Abort => (
            SearchView { interrupted: true, ..s },
            ProbeTurnView { event: None, step: ProbeStepView::Finished(Ok(())) },
        ),
    }
}

impl ProbeActor {
    /// An actor that has tried nothing.
    pub fn new() -> (r: ProbeActor)
        ensures
            r@ == fresh_search(false, None),
    {
        let r = ProbeActor {
            interrupt_flag: false,
            browser: false,
            tried: 0,
            best_result: ProbeResult::default(),
            best_score: Double { bits: 0 },
            last_error: None,
            port_handle: None,
        };
        assert(r@.best =~= no_result());
        r
    }

    /// An actor that has tried nothing, for a browser's port objects.
    pub fn new_in_browser() -> (r: ProbeActor)
        ensures
            r@ == fresh_search(true, None),
    {
        let mut r = ProbeActor::new();
        r.browser = true;
        r
    }

    /// The actor's name in messages about it.
    pub fn name(&self) -> (r: &'static str)
        ensures
            r@ == "ProbeActor"@,
    {
        "ProbeActor"
    }

    /// Begins a search of a port.
    pub fn handle_start(&mut self, port_handle: Option<PortHandle>) -> (r: ProbeTurn)
        ensures
            (final(self)@, r@) == proceeding(fresh_search(old(self).browser, port_handle)),
    {
        self.port_handle = port_handle;
        self.interrupt_flag = false;
        self.tried = 0;
        self.best_result = ProbeResult::default();
        self.best_score = Double { bits: 0 };
        self.last_error = None;
        assert(self@.best =~= no_result());
        self.proceed()
    }

    /// Asks for the search to stop.
    pub fn handle_abort(&mut self)
        ensures
            final(self)@ == (SearchView { interrupted: true, ..old(self)@ }),
    {
        self.interrupt_flag = true;
    }

    /// Does what a message asks for.
    pub fn handle(&mut self, msg: ProbeMessage) -> (r: ProbeTurn)
        ensures
            (final(self)@, r@) == handling(old(self)@, msg),
    {
        match msg {
            ProbeMessage::Start { port: _, port_handle } => self.handle_start(port_handle),
            ProbeMessage::Abort => {
                self.handle_abort();
                ProbeTurn { event: None, step: ProbeStep::Finished(Ok(())) }
            },
        }
    }

    fn conclude(&self) -> (r: ProbeTurn)
        ensures
            r@ == conclusion(self@),
    {
        if self.best_score.exceeds(Double { bits: MIN_CONFIDENCE }) {
            let initial_data = self.best_result.initial_data.clone();
            assert(initial_data@ =~= self.best_result.initial_data@);
            ProbeTurn {
                event: None,
                step: ProbeStep::Report {
                    msg: StateMessage::ProbeComplete {
                        baud: self.best_result.baud,
                        framing: self.best_result.framing.clone(),
                        protocol: clone_opt_text(&self.best_result.protocol),
                        initial_data,
                    },
                    on_failure: "StateActor unavailable during ProbeComplete",
                },
            }
        } else {
            let reason = match &self.last_error {
                Some(e) => joined("Auto-detection passed with errors. Last error: ", e.as_str()),
                None => "Auto-detection failed: no valid signal detected".to_owned(),
            };
            ProbeTurn {
                event: None,
                step: ProbeStep::Report {
                    msg: StateMessage::ConnectionFailed { reason },
                    on_failure: "StateActor unavailable during probe failure",
                },
            }
        }
    }

    /// Takes up the next baud rate, or ends the search.
    pub fn proceed(&mut self) -> (r: ProbeTurn)
        ensures
            (final(self)@, r@) == proceeding(old(self)@),
    {
        if self.tried >= BAUD_CANDIDATES.len() {
            return self.conclude();
        }
        if self.interrupt_flag {
            return ProbeTurn {
                event: Some(
                    SystemEvent::StatusUpdate { message: "Auto-detection cancelled".to_owned() },
                ),
                step: ProbeStep::Finished(Err(ActorError::Other("Probe aborted".to_owned()))),
            };
        }
        let candidates: [u32; 11] = BAUD_CANDIDATES;
        let baud = candidates[self.tried];
        self.tried = self.tried + 1;
        let mut message = joined("Scanning ", decimal_text(baud as u64).as_str());
        message.append(" baud...");
        ProbeTurn {
            event: Some(SystemEvent::ProbeProgress { baud, message }),
            step: ProbeStep::Gather { baud },
        }
    }

    /// Takes a result into account, and ends the search or goes on.
    pub fn weigh(&mut self, result: ProbeResult, baud: u32, len: usize) -> (r: ProbeTurn)
        ensures
            (final(self)@, r@) == weighing(old(self)@, result_view(result), baud, len as nat),
    {
        if result.confidence.exceeds(self.best_score) {
            self.best_score = result.confidence;
            self.best_result = result;
        }
        if self.best_score.exceeds(Double { bits: PERFECT_MATCH_THRESHOLD }) && len
            > MIN_BUFFER_FOR_HIGH_CONFIDENCE {
            return self.conclude();
        }
        let threshold = if baud >= 1_000_000 {
            HIGH_SPEED_THRESHOLD
        } else {
            STANDARD_THRESHOLD
        };
        if self.best_score.exceeds(Double { bits: threshold }) {
            return self.conclude();
        }
        self.proceed()
    }

    /// Takes in what was gathered at a baud rate, or why nothing was.
    pub fn gathered(&mut self, baud: u32, outcome: Result<Vec<u8>, ActorError>) -> (r: ProbeTurn)
        ensures
            match outcome {
                Ok(buffer) => (final(self)@, r@) == weighing(
                    old(self)@,
                    classified(buffer@, baud, holds_packet(buffer@, 0)),
                    baud,
                    buffer@.len(),
                ),
                Err(e) => (final(self)@, r@) == failing(old(self)@, e@),
            },
    {
        match outcome {
            Ok(buffer) => {
                let result = analyze_buffer(buffer.as_slice(), baud);
                self.weigh(result, baud, buffer.len())
            },
            Err(ActorError::Transport(msg)) => {
                if contains_text(msg.as_str(), "AlreadyOpen") || contains_text(
                    msg.as_str(),
                    "InvalidState",
                ) {
                    return ProbeTurn {
                        event: None,
                        step: ProbeStep::Report {
                            msg: StateMessage::ConnectionFailed {
                                reason: joined("Probe halted: ", msg.as_str()),
                            },
                            on_failure: "StateActor unavailable during probe fatal error",
                        },
                    };
                }
                self.last_error = Some(msg);
                if self.browser {
                    ProbeTurn { event: None, step: ProbeStep::Pause { millis: 500 } }
                } else {
                    self.proceed()
                }
            },
            Err(e) => ProbeTurn { event: None, step: ProbeStep::Finished(Err(e)) },
        }
    }

    /// How the search ends once its report was sent.
    pub fn report_result(delivered: bool, on_failure: &str) -> (r: Result<(), ActorError>)
        ensures
            delivered ==> r is Ok,
            !delivered ==> (r matches Err(e) && e@ == ActorErrorView::ChannelClosed(on_failure@)),
    {
        if delivered {
            Ok(())
        } else {
            Err(ActorError::ChannelClosed(on_failure.to_owned()))
        }
    }
}

/// The score is that of the best result, and a search that has found nothing has
/// the score zero.
pub open spec fn consistent(s: SearchView) -> bool {
    s.best_score == s.best.confidence && 0 <= s.tried <= BAUD_CANDIDATES@.len()
}

/// A search keeps its score in step with its best result, and never loses confidence.
pub proof fn law_search_keeps_the_best(s: SearchView, r: ProbeResultView, baud: u32, len: nat)
    requires
        consistent(s),
    ensures
        consistent(fresh_search(s.browser, s.port_handle)),
        consistent(weighing(s, r, baud, len).0),
        !exceeds(s.best_score, weighing(s, r, baud, len).0.best_score),
        !exceeds(r.confidence, weighing(s, r, baud, len).0.best_score),
        weighing(s, r, baud, len).0.best == s.best || weighing(s, r, baud, len).0.best == r,
{
    assert(BAUD_CANDIDATES@.len() == 11);
}

/// Every step of a search takes up one more baud rate, waits, or ends it; no rate
/// is taken up twice, and none is left out before the last.
pub proof fn law_rates_are_tried_in_order(s: SearchView)
    requires
        consistent(s),
    ensures
        proceeding(s).1.step matches ProbeStepView::Gather { baud } ==> baud
            == BAUD_CANDIDATES@[s.tried] && proceeding(s).0.tried == s.tried + 1,
        !(proceeding(s).1.step matches ProbeStepView::Gather { baud }) ==> proceeding(s).0 == s && (
        s.tried == BAUD_CANDIDATES@.len() || s.interrupted),
{
    assert(BAUD_CANDIDATES@.len() == 11);
}

/// A search that is told to stop takes up no further baud rate.
pub proof fn law_stopped_search_ends(s: SearchView)
    requires
        s.interrupted,
    ensures
        !(proceeding(s).1.step matches ProbeStepView::Gather { baud }),
{
}

/// Settings are reported as found only with more than the least confidence.
pub proof fn law_found_only_with_confidence(s: SearchView)
    ensures
        (conclusion(s).step matches ProbeStepView::Report {
            report: Some(ReportView::Found { baud: _, framing: _, protocol: _, initial_data: _ }),
            on_failure: _,
        }) <==> exceeds(s.best_score, Double { bits: MIN_CONFIDENCE }),
{
}

/// The rates are tried from the most common one, over the high speeds, to the older ones:
/// eleven of them, each told to the user by its own number.
pub proof fn law_rates_and_their_order(s: SearchView)
    requires
        !s.interrupted,
        0 <= s.tried < 11,
    ensures
        ({
            let baud: u32 = if s.tried == 0 {
                115200
            } else if s.tried == 1 {
                1500000
            } else if s.tried == 2 {
                1000000
            } else if s.tried == 3 {
                2000000
            } else if s.tried == 4 {
                921600
            } else if s.tried == 5 {
                57600
            } else if s.tried == 6 {
                460800
            } else if s.tried == 7 {
                230400
            } else if s.tried == 8 {
                38400
            } else if s.tried == 9 {
                19200
            } else {
                9600
            };
            proceeding(s) == (
                SearchView { tried: s.tried + 1, ..s },
                ProbeTurnView {
                    event: Some(
                        SystemEventView::ProbeProgress {
                            baud,
                            message: "Scanning "@ + decimal(baud as nat) + " baud..."@,
                        },
                    ),
                    step: ProbeStepView::Gather { baud },
                },
            )
        }),
{
}

/// After the last rate, and as soon as one is good enough, the result with the highest
/// confidence is reported: its own rate, framing, protocol and data, if it exceeds 0.3; and
/// otherwise that nothing was found, with the last error if there was one.
pub proof fn law_best_result_is_reported(s: SearchView)
    ensures
        ({
            let turn = conclusion(s);
            &&& turn.event is None
            &&& exceeds(s.best_score, Double { bits: 0x3FD3_3333_3333_3333 }) ==> (turn.step
                matches ProbeStepView::Report { report, on_failure } && report == Some(
                ReportView::Found {
                    baud: s.best.baud,
                    framing: s.best.framing,
                    protocol: s.best.protocol,
                    initial_data: s.best.initial_data,
                },
            ) && on_failure == "StateActor unavailable during ProbeComplete"@)
            &&& !exceeds(s.best_score, Double { bits: 0x3FD3_3333_3333_3333 }) ==> (turn.step
                matches ProbeStepView::Report { report, on_failure } && (report
                matches Some(ReportView::Failed { reason }) && (s.last_error is None ==> reason
                == "Auto-detection failed: no valid signal detected"@) && (s.last_error
                matches Some(e) ==> reason == "Auto-detection passed with errors. Last error: "@
                + e)) && on_failure == "StateActor unavailable during probe failure"@)
            &&& s.tried >= 11 ==> proceeding(s) == (s, turn)
        }),
{
}

/// A result is kept exactly if its confidence exceeds the best one's so far. The search
/// ends with it above 0.85 from a million baud on, above 0.98 below that, and above 0.99
/// with more than 64 bytes; otherwise it goes on.
pub proof fn law_results_are_weighed(s: SearchView, r: ProbeResultView, baud: u32, len: nat)
    ensures
        ({
            let kept = if exceeds(r.confidence, s.best_score) {
                SearchView { best: r, best_score: r.confidence, ..s }
            } else {
                s
            };
            let enough = (baud >= 1_000_000 && exceeds(
                kept.best_score,
                Double { bits: 0x3FEB_3333_3333_3333 },
            )) || (baud < 1_000_000 && exceeds(
                kept.best_score,
                Double { bits: 0x3FEF_5C28_F5C2_8F5C },
            )) || (len > 64 && exceeds(kept.best_score, Double { bits: 0x3FEF_AE14_7AE1_47AE }));
            &&& enough ==> weighing(s, r, baud, len) == (kept, conclusion(kept))
            &&& !enough ==> weighing(s, r, baud, len) == proceeding(kept)
        }),
{
}

/// A text that has another text in it.
pub open spec fn mentions(text: Seq<char>, word: Seq<char>) -> bool {
    exists|before: Seq<char>, after: Seq<char>| text == #[trigger] (before + word + after)
}

proof fn lemma_mentions(text: Seq<char>, word: Seq<char>)
    ensures
        mentions(text, word) == occurs_in(word, text),
{
    law_what_occurs_is_mentioned(text, word);
}

/// An error that mentions an open port or an invalid state ends the search, with its words;
/// any other transport error is remembered and the search goes on, in a browser after half
/// a second; an error of another kind ends it.
pub proof fn law_errors_of_a_search(s: SearchView, msg: Seq<char>, e: ActorErrorView)
    ensures
        mentions(msg, "AlreadyOpen"@) || mentions(msg, "InvalidState"@) ==> failing(
            s,
            ActorErrorView::Transport(msg),
        ) == (
            s,
            ProbeTurnView {
                event: None,
                step: ProbeStepView::Report {
                    report: Some(ReportView::Failed { reason: "Probe halted: "@ + msg }),
                    on_failure: "StateActor unavailable during probe fatal error"@,
                },
            },
        ),
        !(mentions(msg, "AlreadyOpen"@) || mentions(msg, "InvalidState"@)) ==> failing(
            s,
            ActorErrorView::Transport(msg),
        ) == ({
            let next = SearchView { last_error: Some(msg), ..s };
            if s.browser {
                (next, ProbeTurnView { event: None, step: ProbeStepView::Pause { millis: 500 } })
            } else {
                proceeding(next)
            }
        }),
        !(e is Transport) ==> failing(s, e) == (
            s,
            ProbeTurnView { event: None, step: ProbeStepView::Finished(Err(e)) },
        ),
{
    lemma_mentions(msg, "AlreadyOpen"@);
    lemma_mentions(msg, "InvalidState"@);
}

/// A search begins anew with every start, for the port object that came with it, and a stop
/// takes effect before the next rate.
pub proof fn law_searches_begin_and_stop(s: SearchView, msg: ProbeMessage)
    ensures
        msg matches ProbeMessage::Start { port, port_handle } ==> ({
            let begun = handling(s, msg);
            &&& begun.0.tried == 1 && !begun.0.interrupted && begun.0.last_error is None
                && begun.0.best_score.bits == 0 && begun.0.port_handle == port_handle
                && begun.0.browser == s.browser
            &&& begun.1.step == (ProbeStepView::Gather { baud: 115200 })
        }),
        msg is Abort ==> handling(s, msg).0 == (SearchView { interrupted: true, ..s })
            && handling(s, msg).1.step == ProbeStepView::Finished(Ok(())),
        s.interrupted && 0 <= s.tried < 11 ==> proceeding(s) == (
            s,
            ProbeTurnView {
                event: Some(
                    SystemEventView::StatusUpdate { message: "Auto-detection cancelled"@ },
                ),
                step: ProbeStepView::Finished(Err(ActorErrorView::Other("Probe aborted"@))),
            },
        ),
{
}

/// The actor searches as the model does: from a start, from what was gathered, and from an
/// error; and it stops when told to.
pub proof fn law_actor_searches_as_its_model(
    actor: &mut ProbeActor,
    handle: Option<PortHandle>,
    msg: ProbeMessage,
    result: ProbeResult,
    baud: u32,
    len: usize,
    buffer: Vec<u8>,
    e: ActorError,
    r: ProbeTurn,
)
    ensures
        call_ensures(ProbeActor::handle_start, (actor, handle), r) ==> (final(actor)@, r@)
            == proceeding(fresh_search(old(actor).browser, handle)),
        call_ensures(ProbeActor::handle_abort, (actor,), ()) ==> final(actor)@ == (SearchView {
            interrupted: true,
            ..old(actor)@
        }),
        call_ensures(ProbeActor::handle, (actor, msg), r) ==> (final(actor)@, r@) == handling(
            old(actor)@,
            msg,
        ),
        call_ensures(ProbeActor::proceed, (actor,), r) ==> (final(actor)@, r@) == proceeding(
            old(actor)@,
        ),
        call_ensures(ProbeActor::weigh, (actor, result, baud, len), r) ==> (final(actor)@, r@)
            == weighing(old(actor)@, result_view(result), baud, len as nat),
        call_ensures(ProbeActor::gathered, (actor, baud, Ok(buffer)), r) ==> (final(actor)@, r@)
            == weighing(
            old(actor)@,
            classified(buffer@, baud, holds_packet(buffer@, 0)),
            baud,
            buffer@.len(),
        ),
        call_ensures(ProbeActor::gathered, (actor, baud, Err(e)), r) ==> (final(actor)@, r@)
            == failing(old(actor)@, e@),
{
}

/// A report that was not delivered is a closed channel, in the words that go with it.
pub proof fn law_reports_that_do_not_arrive(
    delivered: bool,
    on_failure: &str,
    r: Result<(), ActorError>,
)
    requires
        call_ensures(ProbeActor::report_result, (delivered, on_failure), r),
    ensures
        r is Ok <==> delivered,
        r matches Err(e) ==> e@ == ActorErrorView::ChannelClosed(on_failure@),
{
}

} // verus!
