//! The relay pipeline: turns what the upstream brings into the events that go
//! out to the client, and sees to it that every stream ends with the terminal
//! marker.
//!
//! The relay is a state machine. While `Streaming` it takes the status of the
//! provider's answer, chunks, transport errors and the end of the upstream. The terminator line and a transport
//! error end the stream at once; when the upstream closes without either, the
//! relay is `Draining` until `drain` has handed out the terminal marker. In
//! `Terminated` nothing comes out any more.

use crate::decoder::carries_record;
use crate::decoder::decode;
use crate::decoder::decoded;
use crate::decoder::is_data_line;
use crate::decoder::lemma_other_lines_are_ignored;
use crate::decoder::lemma_terminator_line;
use crate::decoder::payload_of;
use crate::decoder::record_payload;
use crate::decoder::DecodeOutcome;
use crate::decoder::DecodeOutcomeView;
use crate::decoder::TERMINATOR_LINE;
use crate::framer::fed;
use crate::framer::LineFramer;
use crate::text::chars_of;
use crate::text::utf8_lossy;
use crate::xai_client::check_response;
use crate::xai_client::is_success;
use crate::xai_client::refusal_text;
use crate::xai_client::text_view;
use crate::xai_client::ResponseStatus;
use crate::xai_client::StreamChunk;
use vstd::prelude::*;
use vstd::string::StringExecFns;

verus! {

/// The payload of the event that ends every stream.
pub const TERMINAL_MARKER: &'static str = "[DONE]";

/// The interval, in seconds, at which a keep-alive comment goes out while the
/// stream is idle.
pub const KEEP_ALIVE_SECONDS: u64 = 15;

/// The text of the keep-alive comment.
pub const KEEP_ALIVE_TEXT: &'static str = "keep-alive";

/// An event for the client.
#[derive(Clone, Debug)]
pub struct OutboundEvent {
    pub payload: String,
}

impl View for OutboundEvent {
    type V = Seq<char>;

    open spec fn view(&self) -> Seq<char> {
        self.payload@
    }
}

impl DeepView for OutboundEvent {
    type V = Seq<char>;

    open spec fn deep_view(&self) -> Seq<char> {
        self.payload@
    }
}

/// The character that a server-sent event cannot carry in its data.
pub const CARRIAGE_RETURN: char = '\r';

/// `text` without its carriage returns.
pub open spec fn without_returns(text: Seq<char>) -> Seq<char>
    decreases text.len(),
{
    if text.len() == 0 {
        Seq::empty()
    } else if text.last() == CARRIAGE_RETURN {
        without_returns(text.drop_last())
    } else {
        without_returns(text.drop_last()).push(text.last())
    }
}

/// The payload that reports a transport error to the client.
pub open spec fn error_marker(description: Seq<char>) -> Seq<char> {
    "[ERROR: "@ + description + "]"@
}

impl OutboundEvent {
    /// The event that carries generated content.
    pub fn content(text: String) -> (event: OutboundEvent)
        ensures
            event@ == text@,
    {
        OutboundEvent { payload: text }
    }

    /// The event that reports a transport error.
    pub fn error(description: &str) -> (event: OutboundEvent)
        ensures
            event@ == error_marker(description@),
    {
        let mut payload = String::from_str("[ERROR: ");
        payload.append(description);
        payload.append("]");
        OutboundEvent { payload }
    }

    /// The event that ends the stream.
    pub fn terminal() -> (event: OutboundEvent)
        ensures
            event@ == TERMINAL_MARKER@,
    {
        OutboundEvent { payload: String::from_str(TERMINAL_MARKER) }
    }

    /// The payload as the data of a server-sent event can carry it: without
    /// carriage returns.
    pub fn transmittable(&self) -> (text: String)
        ensures
            text@ == without_returns(self@),
    {
        let chars = chars_of(self.payload.as_str());
        let mut text = String::new();
        let mut i: usize = 0;
        while i < chars.len()
            invariant
                i <= chars.len(),
                chars@ == self@,
                text@ == without_returns(chars@.take(i as int)),
            decreases chars.len() - i,
        {
            assert(chars@.take(i + 1).drop_last() =~= chars@.take(i as int));
            if chars[i] != CARRIAGE_RETURN {
                text.push(chars[i]);
            }
            i += 1;
        }
        assert(chars@.take(chars.len() as int) =~= chars@);
        text
    }

    /// Whether the event's payload is the terminal marker.
    pub fn is_terminal(&self) -> (terminal: bool)
        ensures
            terminal == (self@ == TERMINAL_MARKER@),
    {
        let marker = String::from_str(TERMINAL_MARKER);
        self.payload == marker
    }
}

/// Where a relay stands.
#[derive(Clone, Copy, Debug, PartialEq, Eq, Structural)]
pub enum RelayState {
    /// The upstream is being read.
    Streaming,
    /// The upstream has closed; the terminal marker is still owed.
    Draining,
    /// The terminal marker has gone out.
    Terminated,
}

/// What the upstream can bring.
pub enum Upstream {
    /// A framed line, decoded.
    Outcome(DecodeOutcomeView),
    /// A transport error, with its description.
    Failed(Seq<char>),
    /// The end of the upstream.
    Closed,
}

/// What a delta's content brings forth: one payload, unless the content is
/// missing or empty.
pub open spec fn relayed_content(content: Option<Seq<char>>) -> Seq<Seq<char>> {
    match content {
        Some(text) => if text.len() > 0 {
            seq![text]
        } else {
            Seq::empty()
        },
        None => Seq::empty(),
    }
}

/// One step of the relay: the state after `input`, and the payloads of the
/// events that go out. Only a relay that is `Streaming` takes input.
pub open spec fn relay_step(state: RelayState, input: Upstream) -> (RelayState, Seq<Seq<char>>) {
    if state != RelayState::Streaming {
        (state, Seq::empty())
    } else {
        match input {
            Upstream::Outcome(DecodeOutcomeView::Data(delta)) => (
                RelayState::Streaming,
                relayed_content(delta.content),
            ),
            Upstream::Outcome(DecodeOutcomeView::Terminator) => (
                RelayState::Terminated,
                seq![TERMINAL_MARKER@],
            ),
            Upstream::Outcome(DecodeOutcomeView::Ignored) => (RelayState::Streaming, Seq::empty()),
            Upstream::Failed(description) => (
                RelayState::Terminated,
                seq![error_marker(description), TERMINAL_MARKER@],
            ),
            Upstream::Closed => (RelayState::Draining, Seq::empty()),
        }
    }
}

/// Closing the stream: whatever has not ended yet ends with the terminal marker.
pub open spec fn relay_drain(state: RelayState) -> (RelayState, Seq<Seq<char>>) {
    if state == RelayState::Terminated {
        (RelayState::Terminated, Seq::empty())
    } else {
        (RelayState::Terminated, seq![TERMINAL_MARKER@])
    }
}

/// The relay's steps over a sequence of inputs: the state in the end, and
/// everything that went out, in order.
pub open spec fn relay_run(state: RelayState, inputs: Seq<Upstream>) -> (
    RelayState,
    Seq<Seq<char>>,
)
    decreases inputs.len(),
{
    if inputs.len() == 0 {
        (state, Seq::empty())
    } else {
        let before = relay_run(state, inputs.drop_last());
        let last = relay_step(before.0, inputs.last());
        (last.0, before.1 + last.1)
    }
}

/// Everything that goes out over the life of one stream: what the inputs
/// bring forth, then what closing the stream adds.
pub open spec fn transcript(inputs: Seq<Upstream>) -> Seq<Seq<char>> {
    let ran = relay_run(RelayState::Streaming, inputs);
    ran.1 + relay_drain(ran.0).1
}

/// `input` is generated content that reads exactly like the terminal marker.
pub open spec fn reads_as_marker(input: Upstream) -> bool {
    input matches Upstream::Outcome(DecodeOutcomeView::Data(delta)) && delta.content == Some(
        TERMINAL_MARKER@,
    )
}

/// No input is content that reads like the terminal marker.
pub open spec fn marker_free(inputs: Seq<Upstream>) -> bool {
    forall|i: int| 0 <= i < inputs.len() ==> !reads_as_marker(#[trigger] inputs[i])
}

/// The error marker never reads like the terminal marker.
pub proof fn lemma_error_is_no_marker(description: Seq<char>)
    ensures
        error_marker(description) != TERMINAL_MARKER@,
{
    reveal_strlit("[ERROR: ");
    reveal_strlit("[DONE]");
    assert(TERMINAL_MARKER@[1] == 'D');
}

/// What has gone out while the relay ran: once it is `Terminated`, the
/// terminal marker is the last payload; before that, and before the last
/// payload, no marker has gone out unless content read like one.
pub proof fn lemma_run_ends_once(inputs: Seq<Upstream>)
    ensures
        ({
            let ran = relay_run(RelayState::Streaming, inputs);
            if ran.0 == RelayState::Terminated {
                &&& ran.1.len() > 0
                &&& ran.1.last() == TERMINAL_MARKER@
                &&& marker_free(inputs) ==> forall|k: int|
                    0 <= k < ran.1.len() - 1 ==> ran.1[k] != TERMINAL_MARKER@
            } else {
                marker_free(inputs) ==> forall|k: int|
                    0 <= k < ran.1.len() ==> ran.1[k] != TERMINAL_MARKER@
            }
        }),
    decreases inputs.len(),
{
    if inputs.len() > 0 {
        let front = inputs.drop_last();
        lemma_run_ends_once(front);
        if relay_run(RelayState::Streaming, front).0 == RelayState::Streaming {
            match inputs.last() {
                Upstream::Failed(description) => {
                    lemma_error_is_no_marker(description);
                },
                _ => {},
            }
        }
    }
}

/// Every stream ends with the terminal marker, and with one only: the last
/// payload that goes out is the marker, whatever the upstream brought; and
/// no earlier payload is the marker, unless generated content read like it.
pub proof fn lemma_exactly_one_terminal(inputs: Seq<Upstream>)
    ensures
        transcript(inputs).len() > 0,
        transcript(inputs).last() == TERMINAL_MARKER@,
        marker_free(inputs) ==> forall|k: int|
            0 <= k < transcript(inputs).len() - 1 ==> transcript(inputs)[k] != TERMINAL_MARKER@,
{
    lemma_run_ends_once(inputs);
}

/// A relay that is not `Streaming` takes nothing that the upstream brings: the
/// state stays and nothing goes out.
pub proof fn lemma_only_streaming_takes_input(state: RelayState, later: Seq<Upstream>)
    requires
        state != RelayState::Streaming,
    ensures
        relay_run(state, later) == (state, Seq::<Seq<char>>::empty()),
    decreases later.len(),
{
    if later.len() > 0 {
        lemma_only_streaming_takes_input(state, later.drop_last());
    }
}

/// Running over inputs in two parts is running over the first part and going
/// on from there with the second: what goes out is what the parts bring
/// forth, one after the other.
pub proof fn lemma_run_splits(state: RelayState, first: Seq<Upstream>, second: Seq<Upstream>)
    ensures
        ({
            let head = relay_run(state, first);
            let tail = relay_run(head.0, second);
            relay_run(state, first + second) == (tail.0, head.1 + tail.1)
        }),
    decreases second.len(),
{
    if second.len() > 0 {
        assert((first + second).drop_last() =~= first + second.drop_last());
        lemma_run_splits(state, first, second.drop_last());
    }
}

/// The terminator line ends the stream: the terminal marker goes out, and
/// whatever the upstream brings afterwards is neither decoded nor relayed.
pub proof fn lemma_terminator_ends_the_stream(parsed: Option<StreamChunk>, later: Seq<Upstream>)
    ensures
        relay_step(
            RelayState::Streaming,
            Upstream::Outcome(decoded(TERMINATOR_LINE@, parsed)),
        ) == (RelayState::Terminated, seq![TERMINAL_MARKER@]),
        relay_run(RelayState::Terminated, later) == (
            RelayState::Terminated,
            Seq::<Seq<char>>::empty(),
        ),
{
    lemma_terminator_line(parsed);
    lemma_only_streaming_takes_input(RelayState::Terminated, later);
}

/// An empty line, and a line without the data prefix, brings forth no event
/// and leaves the relay where it stands.
pub proof fn lemma_ignored_lines_yield_nothing(
    state: RelayState,
    line: Seq<char>,
    parsed: Option<StreamChunk>,
)
    requires
        line.len() == 0 || !is_data_line(line),
    ensures
        relay_step(state, Upstream::Outcome(decoded(line, parsed))) == (
            state,
            Seq::<Seq<char>>::empty(),
        ),
{
    lemma_other_lines_are_ignored(line, parsed);
}

/// Decoded lines as inputs of the relay.
pub open spec fn as_inputs(outcomes: Seq<DecodeOutcomeView>) -> Seq<Upstream> {
    Seq::new(outcomes.len(), |i: int| Upstream::Outcome(outcomes[i]))
}

/// `outcome` is how `line` is decoded by a relay in `state` that has `parse`
/// for its payloads. Only a relay that is `Streaming` has a payload parsed.
pub open spec fn line_outcome<F: Fn(&String) -> Option<StreamChunk>>(
    parse: F,
    state: RelayState,
    line: Seq<char>,
    outcome: DecodeOutcomeView,
) -> bool {
    if state == RelayState::Streaming && carries_record(line) {
        exists|text: String, parsed: Option<StreamChunk>|
            {
                &&& text@ == payload_of(line)
                &&& #[trigger] parse.ensures((&text,), parsed)
                &&& outcome == decoded(line, parsed)
            }
    } else {
        outcome == decoded(line, None)
    }
}

/// `outcomes` is how the lines of one chunk are decoded, in order, by a relay
/// that is `Streaming` when the chunk arrives.
pub open spec fn chunk_outcomes<F: Fn(&String) -> Option<StreamChunk>>(
    parse: F,
    lines: Seq<Seq<char>>,
    outcomes: Seq<DecodeOutcomeView>,
) -> bool {
    &&& outcomes.len() == lines.len()
    &&& forall|k: int|
        0 <= k < lines.len() ==> line_outcome(
            parse,
            (#[trigger] relay_run(RelayState::Streaming, as_inputs(outcomes.take(k)))).0,
            lines[k],
            outcomes[k],
        )
}

/// The relay as mathematics.
pub struct RelayModel {
    pub state: RelayState,
    /// The text that the framer holds back.
    pub pending: Seq<char>,
}

/// The relay of one stream.
pub struct Relay {
    state: RelayState,
    framer: LineFramer,
}

impl View for Relay {
    type V = RelayModel;

    closed spec fn view(&self) -> RelayModel {
        RelayModel { state: self.state, pending: self.framer@ }
    }
}

impl Relay {
    /// A relay at the start of a stream.
    pub fn new() -> (relay: Relay)
        ensures
            relay@ == (RelayModel { state: RelayState::Streaming, pending: Seq::empty() }),
    {
        Relay { state: RelayState::Streaming, framer: LineFramer::new() }
    }

    /// Where the relay stands.
    pub fn state(&self) -> (state: RelayState)
        ensures
            state == self@.state,
    {
        self.state
    }

    /// Frames the next chunk of the upstream. A relay that is not `Streaming`
    /// reads no more bytes: it hands out no line and keeps what it holds.
    pub fn frame(&mut self, raw: &[u8]) -> (lines: Vec<String>)
        ensures
            final(self)@.state == old(self)@.state,
            old(self)@.state == RelayState::Streaming ==> (lines.deep_view(), final(self)@.pending)
                == fed(old(self)@.pending, utf8_lossy(raw@)),
            old(self)@.state != RelayState::Streaming ==> lines@.len() == 0 && final(self)@.pending
                == old(self)@.pending,
    {
        match self.state {
            RelayState::Streaming => self.framer.feed(raw),
            _ => Vec::new(),
        }
    }

    /// Takes a decoded line.
    pub fn on_outcome(&mut self, outcome: DecodeOutcome) -> (events: Vec<OutboundEvent>)
        ensures
            (final(self)@.state, events.deep_view()) == relay_step(
                old(self)@.state,
                Upstream::Outcome(outcome@),
            ),
            final(self)@.pending == old(self)@.pending,
    {
        let mut events: Vec<OutboundEvent> = Vec::new();
        match self.state {
            RelayState::Streaming => {
                match outcome {
                    DecodeOutcome::Data(delta) => {
                        match delta.content {
                            Some(content) => {
                                if !content.as_str().is_empty() {
                                    let event = OutboundEvent::content(content);
                                    events.push(event);
                                }
                            },
                            None => {},
                        }
                    },
                    DecodeOutcome::Terminator => {
                        let event = OutboundEvent::terminal();
                        events.push(event);
                        self.state = RelayState::Terminated;
                    },
                    DecodeOutcome::Ignored => {},
                }
            },
            _ => {},
        }
        events
    }

    /// Takes a framed line together with what parsing its payload gave.
    pub fn on_line(&mut self, line: &str, parsed: Option<StreamChunk>) -> (events: Vec<
        OutboundEvent,
    >)
        ensures
            (final(self)@.state, events.deep_view()) == relay_step(
                old(self)@.state,
                Upstream::Outcome(decoded(line@, parsed)),
            ),
            final(self)@.pending == old(self)@.pending,
    {
        let outcome = decode(line, parsed);
        self.on_outcome(outcome)
    }

    /// Takes the next chunk of the upstream: frames it, decodes each line in
    /// turn, with `parse` for the payloads, and hands out the events that the
    /// lines bring forth, in order. After the terminator line no later line of
    /// the chunk is decoded.
    pub fn on_chunk<F: Fn(&String) -> Option<StreamChunk>>(&mut self, raw: &[u8], parse: &F) -> (events:
        Vec<OutboundEvent>)
        requires
            forall|text: &String| parse.requires((text,)),
        ensures
            old(self)@.state != RelayState::Streaming ==> events@.len() == 0 && final(self)@ == old(
                self,
            )@,
            old(self)@.state == RelayState::Streaming ==> ({
                let framed = fed(old(self)@.pending, utf8_lossy(raw@));
                &&& final(self)@.pending == framed.1
                &&& exists|outcomes: Seq<DecodeOutcomeView>|
                    {
                        &&& chunk_outcomes(*parse, framed.0, outcomes)
                        &&& (final(self)@.state, events.deep_view()) == #[trigger] relay_run(
                            RelayState::Streaming,
                            as_inputs(outcomes),
                        )
                    }
            }),
    {
        let mut events: Vec<OutboundEvent> = Vec::new();
        match self.state {
            RelayState::Streaming => {},
            _ => {
                return events;
            },
        }
        let lines = self.framer.feed(raw);
        let ghost texts = lines.deep_view();
        let ghost pending = self.framer@;
        let ghost mut outcomes: Seq<DecodeOutcomeView> = Seq::empty();
        let mut i: usize = 0;
        while i < lines.len()
            invariant
                forall|text: &String| parse.requires((text,)),
                i <= lines.len(),
                texts == lines.deep_view(),
                self.framer@ == pending,
                outcomes.len() == i,
                (self.state, events.deep_view()) == relay_run(
                    RelayState::Streaming,
                    as_inputs(outcomes),
                ),
                forall|k: int|
                    0 <= k < i ==> line_outcome(
                        *parse,
                        (#[trigger] relay_run(RelayState::Streaming, as_inputs(outcomes.take(k)))).0,
                        texts[k],
                        outcomes[k],
                    ),
            decreases lines.len() - i,
        {
            let line = &lines[i];
            let ghost outcome: DecodeOutcomeView;
            match self.state {
                RelayState::Streaming => {
                    let decoded_line = match record_payload(line.as_str()) {
                        Some(text) => {
                            let parsed = parse(&text);
                            decode(line.as_str(), parsed)
                        },
                        None => decode(line.as_str(), None),
                    };
                    proof {
                        outcome = decoded_line@;
                    }
                    let mut brought = self.on_outcome(decoded_line);
                    events.append(&mut brought);
                },
                _ => {
                    proof {
                        outcome = decoded(line@, None);
                    }
                },
            }
            proof {
                let longer = outcomes.push(outcome);
                assert(longer.take(i as int) =~= outcomes);
                assert(as_inputs(longer).drop_last() =~= as_inputs(outcomes));
                assert forall|k: int| 0 <= k < i + 1 implies line_outcome(
                    *parse,
                    (#[trigger] relay_run(RelayState::Streaming, as_inputs(longer.take(k)))).0,
                    texts[k],
                    longer[k],
                ) by {
                    if k < i {
                        assert(longer.take(k) =~= outcomes.take(k));
                    }
                }
                outcomes = longer;
            }
            i += 1;
        }
        events
    }

    /// Takes a transport error: the client is told, and the stream ends.
    pub fn on_error(&mut self, description: &str) -> (events: Vec<OutboundEvent>)
        ensures
            (final(self)@.state, events.deep_view()) == relay_step(
                old(self)@.state,
                Upstream::Failed(description@),
            ),
            final(self)@.pending == old(self)@.pending,
    {
        let mut events: Vec<OutboundEvent> = Vec::new();
        match self.state {
            RelayState::Streaming => {
                let report = OutboundEvent::error(description);
                let end = OutboundEvent::terminal();
                events.push(report);
                events.push(end);
                self.state = RelayState::Terminated;
            },
            _ => {},
        }
        events
    }

    /// Takes the status with which the provider answered the request, before
    /// any chunk. A status of success brings forth nothing and the stream goes
    /// on. Any other status is a failure of the transport: the client is told,
    /// with the description that the status and the response's text give, and
    /// the stream ends. `body` is the response's text, `None` where it could
    /// not be read.
    pub fn on_status(&mut self, status: ResponseStatus, body: Option<&str>) -> (events: Vec<
        OutboundEvent,
    >)
        ensures
            is_success(status@) ==> events@.len() == 0 && final(self)@ == old(self)@,
            !is_success(status@) ==> (final(self)@.state, events.deep_view()) == relay_step(
                old(self)@.state,
                Upstream::Failed(refusal_text(status@, text_view(body))),
            ),
            final(self)@.pending == old(self)@.pending,
    {
        match check_response(status, body) {
            Ok(_) => Vec::new(),
            Err(description) => self.on_error(description.as_str()),
        }
    }

    /// Takes the end of the upstream. What the framer still holds is a line
    /// that never was completed; it yields nothing.
    pub fn on_end(&mut self) -> (events: Vec<OutboundEvent>)
        ensures
            (final(self)@.state, events.deep_view()) == relay_step(
                old(self)@.state,
                Upstream::Closed,
            ),
            final(self)@.pending == old(self)@.pending,
    {
        let events: Vec<OutboundEvent> = Vec::new();
        match self.state {
            RelayState::Streaming => {
                self.state = RelayState::Draining;
            },
            _ => {},
        }
        events
    }

    /// Closes the stream: the terminal marker goes out, unless it already has.
    pub fn drain(&mut self) -> (events: Vec<OutboundEvent>)
        ensures
            (final(self)@.state, events.deep_view()) == relay_drain(old(self)@.state),
            final(self)@.pending == old(self)@.pending,
    {
        let mut events: Vec<OutboundEvent> = Vec::new();
        match self.state {
            RelayState::Terminated => {},
            _ => {
                let end = OutboundEvent::terminal();
                events.push(end);
                self.state = RelayState::Terminated;
            },
        }
        events
    }
}

} // verus!
