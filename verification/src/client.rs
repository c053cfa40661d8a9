//! The exchange engine: events of one query stream, source deduplication,
//! and the single-exchange state machine that folds inbound frames into the
//! event list a caller receives.

use vstd::prelude::*;

use crate::text::{str_eq, string_views};

verus! {

// ─── Caller-facing events ────────────────────────────────────────────────

/// Events received during one query exchange, in arrival order: the
/// caller-facing projection of the six wire message kinds onto the four
/// observable outcomes.
#[derive(Debug, Clone, PartialEq, Eq)]
pub enum StreamEvent {
    StreamStart,
    StreamChunk(String),
    StreamEnd(Vec<String>),
    Error(String),
}

/// Mathematical model of a [`StreamEvent`].
pub enum StreamEventView {
    StreamStart,
    StreamChunk(Seq<char>),
    StreamEnd(Seq<Seq<char>>),
    Error(Seq<char>),
}

impl View for StreamEvent {
    type V = StreamEventView;

    open spec fn view(&self) -> StreamEventView {
        match self {
            StreamEvent::StreamStart => StreamEventView::StreamStart,
            StreamEvent::StreamChunk(c) => StreamEventView::StreamChunk(c@),
            StreamEvent::StreamEnd(s) => StreamEventView::StreamEnd(string_views(s@)),
            StreamEvent::Error(m) => StreamEventView::Error(m@),
        }
    }
}

/// The model of each event in a list.
pub open spec fn event_views(s: Seq<StreamEvent>) -> Seq<StreamEventView> {
    s.map_values(|e: StreamEvent| e@)
}

// ─── Source deduplication ────────────────────────────────────────────────

/// A list filtered to the first occurrence of each element, in order: an
/// element seen before is dropped; the position of its first occurrence is
/// kept relative to the other elements.
pub open spec fn dedup_first(s: Seq<Seq<char>>) -> Seq<Seq<char>>
    decreases s.len(),
{
    if s.len() == 0 {
        Seq::empty()
    } else {
        let rest = dedup_first(s.drop_last());
        if s.drop_last().contains(s.last()) {
            rest
        } else {
            rest.push(s.last())
        }
    }
}

/// Keeps the first occurrence of each source, in order of first occurrence.
pub fn deduplicate_sources(sources: Vec<String>) -> (unique: Vec<String>)
    ensures
        string_views(unique@) == dedup_first(string_views(sources@)),
{
    let ghost sv = string_views(sources@);
    let mut unique: Vec<String> = Vec::new();
    let mut i: usize = 0;
    while i < sources.len()
        invariant
            i <= sources.len(),
            sv == string_views(sources@),
            sv.len() == sources@.len(),
            string_views(unique@) == dedup_first(sv.take(i as int)),
        decreases sources.len() - i,
    {
        let source = &sources[i];
        let mut seen = false;
        let mut j: usize = 0;
        while j < unique.len()
            invariant
                j <= unique.len(),
                seen <==> exists|k: int| 0 <= k < j && unique@[k]@ == source@,
            decreases unique.len() - j,
        {
            if str_eq(unique[j].as_str(), source.as_str()) {
                seen = true;
            }
            j += 1;
        }
        proof {
            assert(seen <==> string_views(unique@).contains(source@)) by {
                if seen {
                    let k = choose|k: int| 0 <= k < unique@.len() && unique@[k]@ == source@;
                    assert(string_views(unique@)[k] == source@);
                }
                if string_views(unique@).contains(source@) {
                    let k = choose|k: int|
                        0 <= k < string_views(unique@).len() && string_views(unique@)[k]
                            == source@;
                    assert(unique@[k]@ == source@);
                }
            }
            lemma_dedup_contains(sv.take(i as int), source@);
            assert(sv.take(i as int + 1).drop_last() =~= sv.take(i as int));
            assert(sv.take(i as int + 1).last() == sv[i as int]);
            assert(sv[i as int] == source@);
        }
        if !seen {
            unique.push(source.clone());
            assert(string_views(unique@) =~= dedup_first(sv.take(i as int)).push(source@));
        }
        i += 1;
    }
    proof {
        assert(sv.take(sources@.len() as int) =~= sv);
    }
    unique
}

/// Law: deduplication keeps exactly the elements of its input.
pub proof fn lemma_dedup_contains(s: Seq<Seq<char>>, x: Seq<char>)
    ensures
        dedup_first(s).contains(x) <==> s.contains(x),
    decreases s.len(),
{
    if s.len() == 0 {
    } else {
        let rest = s.drop_last();
        lemma_dedup_contains(rest, x);
        assert(s.contains(x) <==> (rest.contains(x) || s.last() == x)) by {
            if s.contains(x) {
                let k = choose|k: int| 0 <= k < s.len() && s[k] == x;
                if k < s.len() - 1 {
                    assert(rest[k] == x);
                }
            }
            if rest.contains(x) {
                let k = choose|k: int| 0 <= k < rest.len() && rest[k] == x;
                assert(s[k] == x);
            }
            if s.last() == x {
                assert(s[s.len() - 1] == x);
            }
        }
        if !rest.contains(s.last()) {
            let d = dedup_first(rest);
            assert(dedup_first(s) == d.push(s.last()));
            assert(d.push(s.last()).contains(x) <==> (d.contains(x) || s.last() == x)) by {
                if d.contains(x) {
                    let k = choose|k: int| 0 <= k < d.len() && d[k] == x;
                    assert(d.push(s.last())[k] == x);
                }
                assert(d.push(s.last())[d.len() as int] == s.last());
                if d.push(s.last()).contains(x) {
                    let k = choose|k: int|
                        0 <= k < d.push(s.last()).len() && d.push(s.last())[k] == x;
                    if k < d.len() {
                        assert(d[k] == x);
                    }
                }
            }
        }
    }
}

/// Law: deduplication leaves no element twice.
pub proof fn lemma_dedup_no_repeats(s: Seq<Seq<char>>)
    ensures
        dedup_first(s).no_duplicates(),
    decreases s.len(),
{
    if s.len() == 0 {
    } else {
        let rest = s.drop_last();
        lemma_dedup_no_repeats(rest);
        if !rest.contains(s.last()) {
            lemma_dedup_contains(rest, s.last());
            let d = dedup_first(rest);
            assert(forall|k: int| 0 <= k < d.len() ==> d.push(s.last())[k] == d[k]);
            assert(d.push(s.last())[d.len() as int] == s.last());
        }
    }
}

/// Law: a list without repeats deduplicates to itself.
pub proof fn lemma_dedup_of_distinct(s: Seq<Seq<char>>)
    requires
        s.no_duplicates(),
    ensures
        dedup_first(s) == s,
    decreases s.len(),
{
    if s.len() == 0 {
        assert(dedup_first(s) =~= s);
    } else {
        let rest = s.drop_last();
        assert(rest.no_duplicates());
        lemma_dedup_of_distinct(rest);
        assert(!rest.contains(s.last())) by {
            if rest.contains(s.last()) {
                let k = choose|k: int| 0 <= k < rest.len() && rest[k] == s.last();
                assert(s[k] == s[s.len() - 1]);
            }
        }
        assert(dedup_first(s) =~= s);
    }
}

/// Law: deduplication is idempotent.
pub proof fn lemma_dedup_idempotent(s: Seq<Seq<char>>)
    ensures
        dedup_first(dedup_first(s)) == dedup_first(s),
{
    lemma_dedup_no_repeats(s);
    lemma_dedup_of_distinct(dedup_first(s));
}

/// The position of the first occurrence of `x` in `s`, for an `x` the list
/// holds.
pub open spec fn first_index(s: Seq<Seq<char>>, x: Seq<char>) -> int
    decreases s.len(),
{
    if s.len() == 0 {
        0
    } else if s.drop_last().contains(x) {
        first_index(s.drop_last(), x)
    } else {
        s.len() - 1
    }
}

/// The first occurrence of an element the list holds lies in the list, and
/// holds that element.
pub proof fn lemma_first_index_in_range(s: Seq<Seq<char>>, x: Seq<char>)
    requires
        s.contains(x),
    ensures
        0 <= first_index(s, x) < s.len(),
        s[first_index(s, x)] == x,
    decreases s.len(),
{
    let rest = s.drop_last();
    if rest.contains(x) {
        lemma_first_index_in_range(rest, x);
        assert(s[first_index(rest, x)] == rest[first_index(rest, x)]);
    } else {
        assert(s.last() == x) by {
            let k = choose|k: int| 0 <= k < s.len() && s[k] == x;
            if k < s.len() - 1 {
                assert(rest[k] == x);
            }
        }
    }
}

/// Law: deduplication preserves first-occurrence order — earlier elements of
/// the result first occur earlier in the input.
pub proof fn lemma_dedup_first_occurrence_order(s: Seq<Seq<char>>, i: int, j: int)
    requires
        0 <= i < j < dedup_first(s).len(),
    ensures
        first_index(s, dedup_first(s)[i]) < first_index(s, dedup_first(s)[j]),
    decreases s.len(),
{
    let rest = s.drop_last();
    let d = dedup_first(rest);
    if rest.contains(s.last()) {
        lemma_dedup_first_occurrence_order(rest, i, j);
        lemma_dedup_contains(rest, dedup_first(s)[i]);
        lemma_dedup_contains(rest, dedup_first(s)[j]);
    } else {
        if j < d.len() {
            assert(d.push(s.last())[i] == d[i]);
            assert(d.push(s.last())[j] == d[j]);
            lemma_dedup_first_occurrence_order(rest, i, j);
            lemma_dedup_contains(rest, d[i]);
            lemma_dedup_contains(rest, d[j]);
        } else {
            assert(j == d.len());
            assert(d.push(s.last())[j] == s.last());
            assert(d.push(s.last())[i] == d[i]);
            lemma_dedup_contains(rest, d[i]);
            lemma_first_index_in_range(rest, d[i]);
            assert(first_index(s, d[i]) == first_index(rest, d[i]));
            assert(first_index(s, s.last()) == s.len() - 1);
        }
    }
}

// ─── Errors surfaced by the exchange ─────────────────────────────────────

/// Client-side failure of a connection or of an exchange: the handshake, the
/// transport, or the decoding of an inbound frame.
#[derive(Debug)]
pub struct ClientError(pub String);

impl From<String> for ClientError {
    /// Wraps a failure message.
    fn from(s: String) -> (r: ClientError) {
        ClientError(s)
    }
}

impl vstd::std_specs::convert::FromSpecImpl<String> for ClientError {
    open spec fn obeys_from_spec() -> bool {
        true
    }

    open spec fn from_spec(s: String) -> ClientError {
        ClientError(s)
    }
}

impl crate::messages::DecodeError {
    /// This decode failure as the client error that aborts the query.
    pub fn into_client_error(self) -> (r: ClientError)
        ensures
            r.0@ == self.message_view(),
    {
        ClientError(self.message())
    }
}

// ─── One inbound frame, as the exchange sees it ──────────────────────────

/// One inbound transport frame, reduced to what the exchange reads: a text
/// frame's characters, a close frame, or any other frame kind.
#[derive(Debug, Clone)]
pub enum Frame {
    Text(String),
    Close,
    Other,
}

/// Mathematical model of a [`Frame`].
pub enum FrameView {
    Text(Seq<char>),
    Close,
    Other,
}

impl View for Frame {
    type V = FrameView;

    open spec fn view(&self) -> FrameView {
        match self {
            Frame::Text(t) => FrameView::Text(t@),
            Frame::Close => FrameView::Close,
            Frame::Other => FrameView::Other,
        }
    }
}

/// The model of each frame in a list.
pub open spec fn frame_views(s: Seq<Frame>) -> Seq<FrameView> {
    s.map_values(|f: Frame| f@)
}

// ─── The single-exchange state machine ───────────────────────────────────

/// What one frame does to an exchange holding `events`: the next event list
/// and whether the exchange is over, or the decode failure that aborts it.
///
/// A close frame ends the exchange; other non-text frames are ignored. A
/// text frame is decoded: `stream_start` and `stream_chunk` append and
/// continue; `stream_end` appends with its sources deduplicated and ends the
/// exchange, as does `error`; `status` and `response` are consumed without
/// an event.
pub open spec fn step_spec(events: Seq<StreamEventView>, frame: FrameView) -> Result<
    (Seq<StreamEventView>, bool),
    crate::messages::DecodeErrorView,
> {
    match frame {
        FrameView::Close => Ok((events, true)),
        FrameView::Other => Ok((events, false)),
        FrameView::Text(t) => match crate::messages::decode_text_spec(t) {
            Err(e) => Err(e),
            Ok(m) => match m {
                crate::messages::ServerMessageView::StreamStart => Ok(
                    (events.push(StreamEventView::StreamStart), false),
                ),
                crate::messages::ServerMessageView::StreamChunk(c) => Ok(
                    (events.push(StreamEventView::StreamChunk(c)), false),
                ),
                crate::messages::ServerMessageView::StreamEnd(s) => Ok(
                    (events.push(StreamEventView::StreamEnd(dedup_first(s))), true),
                ),
                crate::messages::ServerMessageView::Error(m) => Ok(
                    (events.push(StreamEventView::Error(m)), true),
                ),
                crate::messages::ServerMessageView::Status { .. } => Ok((events, false)),
                crate::messages::ServerMessageView::Response { .. } => Ok((events, false)),
            },
        },
    }
}

/// Runs the exchange from a given event list over the frames that remain:
/// steps until a terminal step, a decode failure, or the end of the frames.
pub open spec fn run_from(events: Seq<StreamEventView>, frames: Seq<FrameView>) -> Result<
    Seq<StreamEventView>,
    crate::messages::DecodeErrorView,
>
    decreases frames.len(),
{
    if frames.len() == 0 {
        Ok(events)
    } else {
        match step_spec(events, frames.first()) {
            Err(e) => Err(e),
            Ok((next, done)) => if done {
                Ok(next)
            } else {
                run_from(next, frames.drop_first())
            },
        }
    }
}

/// The event list one exchange yields from a list of inbound frames.
pub open spec fn fold_frames(frames: Seq<FrameView>) -> Result<
    Seq<StreamEventView>,
    crate::messages::DecodeErrorView,
> {
    run_from(Seq::empty(), frames)
}

/// One query exchange in progress: the events accumulated so far and
/// whether a terminal event or close frame has been seen. Per exchange, at
/// most one terminal event is produced, and it is always the last.
pub struct Exchange {
    events: Vec<StreamEvent>,
    done: bool,
}

impl Exchange {
    /// The events accumulated so far.
    pub closed spec fn events_view(&self) -> Seq<StreamEventView> {
        event_views(self.events@)
    }

    /// Whether the exchange is over: no further frame may be fed.
    pub closed spec fn is_done(&self) -> bool {
        self.done
    }

    /// A fresh exchange, before any frame.
    pub fn new() -> (r: Exchange)
        ensures
            r.events_view() == Seq::<StreamEventView>::empty(),
            !r.is_done(),
    {
        let r = Exchange { events: Vec::new(), done: false };
        proof {
            assert(r.events_view() =~= Seq::<StreamEventView>::empty());
        }
        r
    }

    /// Whether the exchange is over.
    pub fn done(&self) -> (r: bool)
        ensures
            r == self.is_done(),
    {
        self.done
    }

    /// Feeds one inbound frame: appends the event it yields, if any, and
    /// records termination; a decode failure leaves the exchange unchanged
    /// and aborts the query.
    pub fn on_frame(&mut self, frame: &Frame) -> (r: Result<(), crate::messages::DecodeError>)
        requires
            !old(self).is_done(),
        ensures
            r matches Ok(()) ==> step_spec(old(self).events_view(), frame@) matches Ok(step)
                && final(self).events_view() == step.0 && final(self).is_done() == step.1,
            r matches Err(e) ==> step_spec(old(self).events_view(), frame@) matches Err(ev) && e@
                == ev && final(self).events_view() == old(self).events_view()
                && !final(self).is_done(),
            r is Ok <==> step_spec(old(self).events_view(), frame@) is Ok,
    {
        match frame {
            Frame::Close => {
                self.done = true;
                Ok(())
            },
            Frame::Other => Ok(()),
            Frame::Text(t) => match crate::messages::ServerMessage::from_json(t.as_str()) {
                Err(e) => Err(e),
                Ok(m) => {
                    match m {
                        crate::messages::ServerMessage::StreamStart => {
                            self.events.push(StreamEvent::StreamStart);
                            assert(self.events_view() =~= old(self).events_view().push(
                                StreamEventView::StreamStart,
                            ));
                        },
                        crate::messages::ServerMessage::StreamChunk(c) => {
                            let ghost cv = c@;
                            self.events.push(StreamEvent::StreamChunk(c));
                            assert(self.events_view() =~= old(self).events_view().push(
                                StreamEventView::StreamChunk(cv),
                            ));
                        },
                        crate::messages::ServerMessage::StreamEnd(sources) => {
                            let ghost sv = string_views(sources@);
                            self.events.push(StreamEvent::StreamEnd(deduplicate_sources(sources)));
                            self.done = true;
                            assert(self.events_view() =~= old(self).events_view().push(
                                StreamEventView::StreamEnd(dedup_first(sv)),
                            ));
                        },
                        crate::messages::ServerMessage::Error(message) => {
                            let ghost mv = message@;
                            self.events.push(StreamEvent::Error(message));
                            self.done = true;
                            assert(self.events_view() =~= old(self).events_view().push(
                                StreamEventView::Error(mv),
                            ));
                        },
                        crate::messages::ServerMessage::Status { .. } => {},
                        crate::messages::ServerMessage::Response { .. } => {},
                    }
                    Ok(())
                },
            },
        }
    }

    /// The accumulated events, ending the borrow of the exchange.
    pub fn into_events(self) -> (r: Vec<StreamEvent>)
        ensures
            event_views(r@) == self.events_view(),
    {
        self.events
    }
}

/// Folds a whole list of inbound frames into the event list of one
/// exchange: the computational core of a query. Frames after a terminal
/// event or close frame are not read; a decode failure aborts.
pub fn collect_stream_events(frames: Vec<Frame>) -> (r: Result<
    Vec<StreamEvent>,
    crate::messages::DecodeError,
>)
    ensures
        r matches Ok(events) ==> fold_frames(frame_views(frames@)) matches Ok(ev) && event_views(
            events@,
        ) == ev,
        r matches Err(e) ==> fold_frames(frame_views(frames@)) matches Err(ev) && e@ == ev,
        r is Ok <==> fold_frames(frame_views(frames@)) is Ok,
    {
    let ghost fv = frame_views(frames@);
    let mut exchange = Exchange::new();
    proof {
        assert(fv.skip(0) =~= fv);
    }
    let mut i: usize = 0;
    while i < frames.len()
        invariant
            i <= frames.len(),
            fv == frame_views(frames@),
            fv.len() == frames@.len(),
            !exchange.is_done(),
            fold_frames(fv) == run_from(exchange.events_view(), fv.skip(i as int)),
        decreases frames.len() - i,
    {
        let frame = &frames[i];
        proof {
            assert(frame@ == fv[i as int]);
            assert(fv.skip(i as int).first() == fv[i as int]);
            assert(fv.skip(i as int).drop_first() =~= fv.skip(i as int + 1));
        }
        match exchange.on_frame(frame) {
            Err(e) => {
                return Err(e);
            },
            Ok(()) => {},
        }
        if exchange.done() {
            return Ok(exchange.into_events());
        }
        i += 1;
    }
    proof {
        assert(fv.skip(frames@.len() as int) =~= Seq::<FrameView>::empty());
    }
    Ok(exchange.into_events())
}

// ─── The connected client ────────────────────────────────────────────────

/// tokio-tungstenite's WebSocket transport, declared so that [`Client`] can
/// hold one; opaque to the verifier.
#[verifier::external_type_specification]
#[verifier::external_body]
#[verifier::reject_recursive_types(S)]
pub struct ExWebSocketStream<S>(tokio_tungstenite::WebSocketStream<S>);

/// tokio-tungstenite's plain-or-TLS socket, declared for the same field;
/// opaque to the verifier.
#[verifier::external_type_specification]
#[verifier::external_body]
#[verifier::reject_recursive_types(S)]
pub struct ExMaybeTlsStream<S>(tokio_tungstenite::MaybeTlsStream<S>);

/// tokio's TCP socket, declared for the same field; opaque to the verifier.
#[verifier::external_type_specification]
#[verifier::external_body]
pub struct ExTcpStream(tokio::net::TcpStream);

/// tokio's asynchronous mutual-exclusion lock, declared so that the client
/// can serialize use of its transport; opaque to the verifier.
#[verifier::external_type_specification]
#[verifier::external_body]
#[verifier::reject_recursive_types(T)]
pub struct ExTokioMutex<T: ?Sized>(tokio::sync::Mutex<T>);

/// The transport one connection runs over.
pub type WsStream = tokio_tungstenite::WebSocketStream<
    tokio_tungstenite::MaybeTlsStream<tokio::net::TcpStream>,
>;

/// A connected client: one live transport, exclusive use enforced by the
/// lock around it, so that at most one exchange is in flight. The
/// asynchronous work on the transport — handshake, send, receive — lives
/// with the caller; every exchange decision lives in [`Exchange`].
pub struct Client {
    pub inner: tokio::sync::Mutex<WsStream>,
}

/// The address of the local server on a port.
pub fn server_url(port: u16) -> (r: String)
    ensures
        r@ == "ws://127.0.0.1:"@ + crate::text::decimal_digits(port as nat),
{
    let mut s = "ws://127.0.0.1:".to_owned();
    crate::text::append_decimal(&mut s, port);
    s
}

// ─── Termination laws of the exchange ────────────────────────────────────

/// Whether an event ends the exchange that produced it.
pub open spec fn is_terminal(e: StreamEventView) -> bool {
    e is StreamEnd || e is Error
}

/// A terminal event can stand only in the last position.
pub open spec fn terminal_only_last(events: Seq<StreamEventView>) -> bool {
    forall|k: int| 0 <= k < events.len() && is_terminal(#[trigger] events[k]) ==> k == events.len()
        - 1
}

/// Running from a terminal-free event list keeps every terminal event last.
proof fn lemma_run_from_terminal_last(events: Seq<StreamEventView>, frames: Seq<FrameView>)
    requires
        forall|k: int| 0 <= k < events.len() ==> !is_terminal(#[trigger] events[k]),
    ensures
        run_from(events, frames) matches Ok(out) ==> terminal_only_last(out),
    decreases frames.len(),
{
    if frames.len() == 0 {
    } else {
        match step_spec(events, frames.first()) {
            Err(_) => {},
            Ok((next, done)) => {
                if done {
                    assert(terminal_only_last(next)) by {
                        assert(forall|k: int|
                            0 <= k < next.len() - 1 ==> #[trigger] next[k] == events[k]);
                    }
                } else {
                    assert(forall|k: int| 0 <= k < next.len() ==> !is_terminal(#[trigger] next[k]))
                        by {
                        assert(forall|k: int|
                            0 <= k < events.len() ==> #[trigger] next[k] == events[k]);
                    }
                    lemma_run_from_terminal_last(next, frames.drop_first());
                }
            },
        }
    }
}

/// Law: in the event list of a successful exchange, a stream-end event is
/// always the last element; no event follows it.
pub proof fn lemma_stream_end_is_last(frames: Seq<FrameView>)
    ensures
        fold_frames(frames) matches Ok(events) ==> terminal_only_last(events),
{
    lemma_run_from_terminal_last(Seq::empty(), frames);
}

/// Law: an error event is the last element of its exchange and its only
/// terminal one; no stream-end event stands beside it.
pub proof fn lemma_error_event_is_last(frames: Seq<FrameView>)
    ensures
        fold_frames(frames) matches Ok(events) ==> forall|i: int, j: int|
            0 <= i < events.len() && (#[trigger] events[i]) is Error && 0 <= j < events.len() && j
                != i ==> !is_terminal(#[trigger] events[j]) && i == events.len() - 1,
{
    lemma_stream_end_is_last(frames);
}

} // verus!
