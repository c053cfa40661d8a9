//! Message model of the wire protocol: JSON text frames, discriminated by a
//! mandatory `type` field. One outbound shape (`query`) and six inbound
//! shapes (`stream_start`, `stream_chunk`, `stream_end`, `error`, `status`,
//! `response`).

use vstd::prelude::*;

verus! {

// ─── The parsed wire document and its model ─────────────────────────────

/// How one key of a parsed JSON document presents to the protocol: absent
/// from the document, present as JSON null, present as a JSON string,
/// present as a JSON array (each element kept when it is a string), or
/// present with any other shape (number, boolean, object).
#[derive(Debug, Clone)]
pub enum WireField {
    Absent,
    Null,
    Text(String),
    List(Vec<WireItem>),
    Other,
}

/// One element of a JSON array as the protocol reads it: a string, or any
/// other JSON shape.
#[derive(Debug, Clone)]
pub enum WireItem {
    Text(String),
    Other,
}

/// The keys of one wire payload that this protocol ever reads or writes,
/// each classified by shape. Keys outside this set are ignored, as they are
/// by the protocol.
#[derive(Debug, Clone)]
pub struct WireDoc {
    pub typ: WireField,
    pub question: WireField,
    pub index: WireField,
    pub chunk: WireField,
    pub sources: WireField,
    pub message: WireField,
    pub status: WireField,
    pub answer: WireField,
}

/// Mathematical model of a [`WireItem`].
pub enum WireItemView {
    Text(Seq<char>),
    Other,
}

/// Mathematical model of a [`WireField`].
pub enum WireFieldView {
    Absent,
    Null,
    Text(Seq<char>),
    List(Seq<WireItemView>),
    Other,
}

/// Mathematical model of a [`WireDoc`].
pub struct WireDocView {
    pub typ: WireFieldView,
    pub question: WireFieldView,
    pub index: WireFieldView,
    pub chunk: WireFieldView,
    pub sources: WireFieldView,
    pub message: WireFieldView,
    pub status: WireFieldView,
    pub answer: WireFieldView,
}

/// The model of each element of a list of wire items.
pub open spec fn item_views(s: Seq<WireItem>) -> Seq<WireItemView> {
    s.map_values(|it: WireItem| it@)
}

impl View for WireItem {
    type V = WireItemView;

    open spec fn view(&self) -> WireItemView {
        match self {
            WireItem::Text(s) => WireItemView::Text(s@),
            WireItem::Other => WireItemView::Other,
        }
    }
}

impl View for WireField {
    type V = WireFieldView;

    open spec fn view(&self) -> WireFieldView {
        match self {
            WireField::Absent => WireFieldView::Absent,
            WireField::Null => WireFieldView::Null,
            WireField::Text(s) => WireFieldView::Text(s@),
            WireField::List(items) => WireFieldView::List(item_views(items@)),
            WireField::Other => WireFieldView::Other,
        }
    }
}

impl View for WireDoc {
    type V = WireDocView;

    open spec fn view(&self) -> WireDocView {
        WireDocView {
            typ: self.typ@,
            question: self.question@,
            index: self.index@,
            chunk: self.chunk@,
            sources: self.sources@,
            message: self.message@,
            status: self.status@,
            answer: self.answer@,
        }
    }
}

// ─── Decode failures ─────────────────────────────────────────────────────

/// Why an inbound payload failed to decode. Any decode failure aborts the
/// exchange that received the payload; it is never skipped.
#[derive(Debug, Clone)]
pub enum DecodeError {
    /// The frame is not a valid JSON document; carries the parser's message.
    Malformed(String),
    /// The document has no `type` key holding a string.
    MissingType,
    /// The `type` key holds a string outside the protocol's closed set;
    /// carries that string.
    UnknownType(String),
    /// A recognized `type` lacks a required key of the required shape;
    /// carries the message type and the key.
    BadField { typ: String, field: String },
}

/// Mathematical model of a [`DecodeError`].
pub enum DecodeErrorView {
    Malformed(Seq<char>),
    MissingType,
    UnknownType(Seq<char>),
    BadField { typ: Seq<char>, field: Seq<char> },
}

impl View for DecodeError {
    type V = DecodeErrorView;

    open spec fn view(&self) -> DecodeErrorView {
        match self {
            DecodeError::Malformed(s) => DecodeErrorView::Malformed(s@),
            DecodeError::MissingType => DecodeErrorView::MissingType,
            DecodeError::UnknownType(s) => DecodeErrorView::UnknownType(s@),
            DecodeError::BadField { typ, field } => DecodeErrorView::BadField {
                typ: typ@,
                field: field@,
            },
        }
    }
}

/// The decode failure for a required key of `typ` that is missing or has the
/// wrong shape.
pub open spec fn bad_field(typ: Seq<char>, field: Seq<char>) -> DecodeErrorView {
    DecodeErrorView::BadField { typ, field }
}

impl DecodeError {
    /// What this failure reads as, one line of text.
    pub open spec fn message_view(&self) -> Seq<char> {
        match self@ {
            DecodeErrorView::Malformed(s) => "invalid message: "@ + s,
            DecodeErrorView::MissingType => "missing type"@,
            DecodeErrorView::UnknownType(t) => "unknown type: "@ + t,
            DecodeErrorView::BadField { typ, field } => typ + ": missing or invalid field: "@
                + field,
        }
    }

    /// Renders this failure as one line of text.
    pub fn message(&self) -> (r: String)
        ensures
            r@ == self.message_view(),
    {
        match self {
            DecodeError::Malformed(s) => {
                let mut r = "invalid message: ".to_owned();
                r.append(s.as_str());
                r
            },
            DecodeError::MissingType => "missing type".to_owned(),
            DecodeError::UnknownType(t) => {
                let mut r = "unknown type: ".to_owned();
                r.append(t.as_str());
                r
            },
            DecodeError::BadField { typ, field } => {
                let mut r = typ.clone();
                r.append(": missing or invalid field: ");
                r.append(field.as_str());
                r
            },
        }
    }
}

// ─── Inbound messages ────────────────────────────────────────────────────

/// Server → client: stream chunk.
#[derive(Debug, Clone)]
pub struct StreamChunkMessage {
    pub chunk: String,
}

/// Server → client: stream end with sources.
#[derive(Debug, Clone)]
pub struct StreamEndMessage {
    pub sources: Vec<String>,
}

/// Server → client: error.
#[derive(Debug, Clone)]
pub struct ErrorMessage {
    pub message: String,
}

/// Server → client: status report.
#[derive(Debug, Clone)]
pub struct StatusMessage {
    pub status: String,
    pub message: Option<String>,
}

/// Server → client: non-streaming response (reserved). Its `sources` may be
/// any JSON array; elements are kept where they are strings.
#[derive(Debug, Clone)]
pub struct ResponseMessage {
    pub answer: String,
    pub sources: Vec<WireItem>,
}

/// One server message; the discriminator is the payload's `type` key.
#[derive(Debug, Clone)]
pub enum ServerMessage {
    StreamStart,
    StreamChunk(String),
    StreamEnd(Vec<String>),
    Error(String),
    Status { status: String, message: Option<String> },
    Response { answer: String, sources: Vec<WireItem> },
}

/// Mathematical model of a [`ServerMessage`].
pub enum ServerMessageView {
    StreamStart,
    StreamChunk(Seq<char>),
    StreamEnd(Seq<Seq<char>>),
    Error(Seq<char>),
    Status { status: Seq<char>, message: Option<Seq<char>> },
    Response { answer: Seq<char>, sources: Seq<WireItemView> },
}

impl View for ServerMessage {
    type V = ServerMessageView;

    open spec fn view(&self) -> ServerMessageView {
        match self {
            ServerMessage::StreamStart => ServerMessageView::StreamStart,
            ServerMessage::StreamChunk(c) => ServerMessageView::StreamChunk(c@),
            ServerMessage::StreamEnd(s) => ServerMessageView::StreamEnd(
                crate::text::string_views(s@),
            ),
            ServerMessage::Error(m) => ServerMessageView::Error(m@),
            ServerMessage::Status { status, message } => ServerMessageView::Status {
                status: status@,
                message: match message {
                    Some(m) => Some(m@),
                    None => None,
                },
            },
            ServerMessage::Response { answer, sources } => ServerMessageView::Response {
                answer: answer@,
                sources: item_views(sources@),
            },
        }
    }
}

// ─── What each message kind requires of the payload ──────────────────────

/// Every element of the array is a string.
pub open spec fn all_text(items: Seq<WireItemView>) -> bool {
    forall|i: int| 0 <= i < items.len() ==> items[i] is Text
}

/// The strings of an all-string array.
pub open spec fn texts_of(items: Seq<WireItemView>) -> Seq<Seq<char>> {
    items.map_values(|it: WireItemView| it->Text_0)
}

/// What a `stream_chunk` payload yields: its `chunk` key, which must hold a
/// string.
pub open spec fn chunk_of_doc(d: WireDocView) -> Result<Seq<char>, DecodeErrorView> {
    match d.chunk {
        WireFieldView::Text(c) => Ok(c),
        _ => Err(bad_field("stream_chunk"@, "chunk"@)),
    }
}

/// What a `stream_end` payload yields: its `sources` key, which must hold an
/// array of strings.
pub open spec fn sources_of_doc(d: WireDocView) -> Result<Seq<Seq<char>>, DecodeErrorView> {
    match d.sources {
        WireFieldView::List(items) => if all_text(items) {
            Ok(texts_of(items))
        } else {
            Err(bad_field("stream_end"@, "sources"@))
        },
        _ => Err(bad_field("stream_end"@, "sources"@)),
    }
}

/// What an `error` payload yields: its `message` key, which must hold a
/// string.
pub open spec fn error_of_doc(d: WireDocView) -> Result<Seq<char>, DecodeErrorView> {
    match d.message {
        WireFieldView::Text(m) => Ok(m),
        _ => Err(bad_field("error"@, "message"@)),
    }
}

/// What a `status` payload yields: its `status` key, which must hold a
/// string, and its `message` key, a string when present (absent and null
/// both read as no message).
pub open spec fn status_of_doc(d: WireDocView) -> Result<
    (Seq<char>, Option<Seq<char>>),
    DecodeErrorView,
> {
    match d.status {
        WireFieldView::Text(s) => match d.message {
            WireFieldView::Absent => Ok((s, None)),
            WireFieldView::Null => Ok((s, None)),
            WireFieldView::Text(m) => Ok((s, Some(m))),
            _ => Err(bad_field("status"@, "message"@)),
        },
        _ => Err(bad_field("status"@, "status"@)),
    }
}

/// What a `response` payload yields: its `answer` key, which must hold a
/// string, and its `sources` key, which must hold an array.
pub open spec fn response_of_doc(d: WireDocView) -> Result<
    (Seq<char>, Seq<WireItemView>),
    DecodeErrorView,
> {
    match d.answer {
        WireFieldView::Text(a) => match d.sources {
            WireFieldView::List(items) => Ok((a, items)),
            _ => Err(bad_field("response"@, "sources"@)),
        },
        _ => Err(bad_field("response"@, "answer"@)),
    }
}

/// The whole inbound decode, over the parsed document: read the mandatory
/// `type` key, dispatch over the six recognized values, and demand each
/// kind's required keys; anything else fails.
pub open spec fn decode_doc_spec(d: WireDocView) -> Result<ServerMessageView, DecodeErrorView> {
    match d.typ {
        WireFieldView::Text(t) => if t == "stream_start"@ {
            Ok(ServerMessageView::StreamStart)
        } else if t == "stream_chunk"@ {
            match chunk_of_doc(d) {
                Ok(c) => Ok(ServerMessageView::StreamChunk(c)),
                Err(e) => Err(e),
            }
        } else if t == "stream_end"@ {
            match sources_of_doc(d) {
                Ok(s) => Ok(ServerMessageView::StreamEnd(s)),
                Err(e) => Err(e),
            }
        } else if t == "error"@ {
            match error_of_doc(d) {
                Ok(m) => Ok(ServerMessageView::Error(m)),
                Err(e) => Err(e),
            }
        } else if t == "status"@ {
            match status_of_doc(d) {
                Ok((status, message)) => Ok(ServerMessageView::Status { status, message }),
                Err(e) => Err(e),
            }
        } else if t == "response"@ {
            match response_of_doc(d) {
                Ok((answer, sources)) => Ok(ServerMessageView::Response { answer, sources }),
                Err(e) => Err(e),
            }
        } else {
            Err(DecodeErrorView::UnknownType(t))
        },
        _ => Err(DecodeErrorView::MissingType),
    }
}

// ─── Decoding the parsed document, verified ──────────────────────────────

impl WireItem {
    /// An equal copy.
    pub fn duplicate(&self) -> (r: WireItem)
        ensures
            r@ == self@,
    {
        match self {
            WireItem::Text(s) => WireItem::Text(s.clone()),
            WireItem::Other => WireItem::Other,
        }
    }
}

/// An equal copy of a list of wire items.
pub fn duplicate_items(items: &Vec<WireItem>) -> (r: Vec<WireItem>)
    ensures
        item_views(r@) == item_views(items@),
{
    let mut out: Vec<WireItem> = Vec::new();
    let mut i: usize = 0;
    while i < items.len()
        invariant
            i <= items.len(),
            out@.len() == i as int,
            item_views(out@) == item_views(items@).take(i as int),
        decreases items.len() - i,
    {
        out.push(items[i].duplicate());
        assert(item_views(out@) =~= item_views(items@).take(i as int + 1));
        i += 1;
    }
    assert(item_views(items@).take(items@.len() as int) =~= item_views(items@));
    out
}

impl StreamChunkMessage {
    /// Reads a `stream_chunk` payload out of a parsed document.
    pub fn from_doc(doc: &WireDoc) -> (r: Result<StreamChunkMessage, DecodeError>)
        ensures
            r matches Ok(m) ==> chunk_of_doc(doc@) matches Ok(c) && m.chunk@ == c,
            r matches Err(e) ==> chunk_of_doc(doc@) matches Err(ev) && e@ == ev,
    {
        match &doc.chunk {
            WireField::Text(c) => Ok(StreamChunkMessage { chunk: c.clone() }),
            _ => Err(
                DecodeError::BadField {
                    typ: "stream_chunk".to_owned(),
                    field: "chunk".to_owned(),
                },
            ),
        }
    }
}

impl StreamEndMessage {
    /// Reads a `stream_end` payload out of a parsed document.
    pub fn from_doc(doc: &WireDoc) -> (r: Result<StreamEndMessage, DecodeError>)
        ensures
            r matches Ok(m) ==> sources_of_doc(doc@) matches Ok(s) && crate::text::string_views(
                m.sources@,
            ) == s,
            r matches Err(e) ==> sources_of_doc(doc@) matches Err(ev) && e@ == ev,
    {
        match &doc.sources {
            WireField::List(items) => {
                let ghost itemsv = item_views(items@);
                let mut out: Vec<String> = Vec::new();
                let mut i: usize = 0;
                while i < items.len()
                    invariant
                        i <= items.len(),
                        out@.len() == i as int,
                        itemsv == item_views(items@),
                        itemsv.len() == items@.len(),
                        doc@.sources == WireFieldView::List(itemsv),
                        forall|j: int| 0 <= j < i ==> itemsv[j] is Text,
                        crate::text::string_views(out@) == texts_of(itemsv.take(i as int)),
                    decreases items.len() - i,
                {
                    proof {
                        assert(itemsv[i as int] == items@[i as int]@);
                    }
                    match &items[i] {
                        WireItem::Text(s) => {
                            let ghost prev = out@;
                            out.push(s.clone());
                            proof {
                                assert forall|j: int|
                                    0 <= j < i + 1 implies crate::text::string_views(out@)[j]
                                    == texts_of(itemsv.take(i as int + 1))[j] by {
                                    assert(itemsv.take(i as int + 1)[j] == itemsv[j]);
                                    if j < i {
                                        assert(crate::text::string_views(prev)[j] == texts_of(
                                            itemsv.take(i as int),
                                        )[j]);
                                    }
                                }
                                assert(crate::text::string_views(out@) =~= texts_of(
                                    itemsv.take(i as int + 1),
                                ));
                            }
                        },
                        WireItem::Other => {
                            assert(!all_text(itemsv));
                            return Err(
                                DecodeError::BadField {
                                    typ: "stream_end".to_owned(),
                                    field: "sources".to_owned(),
                                },
                            );
                        },
                    }
                    i += 1;
                }
                assert(itemsv.take(i as int) =~= itemsv);
                assert(all_text(itemsv));
                Ok(StreamEndMessage { sources: out })
            },
            _ => Err(
                DecodeError::BadField {
                    typ: "stream_end".to_owned(),
                    field: "sources".to_owned(),
                },
            ),
        }
    }
}

impl ErrorMessage {
    /// Reads an `error` payload out of a parsed document.
    pub fn from_doc(doc: &WireDoc) -> (r: Result<ErrorMessage, DecodeError>)
        ensures
            r matches Ok(m) ==> error_of_doc(doc@) matches Ok(s) && m.message@ == s,
            r matches Err(e) ==> error_of_doc(doc@) matches Err(ev) && e@ == ev,
    {
        match &doc.message {
            WireField::Text(m) => Ok(ErrorMessage { message: m.clone() }),
            _ => Err(
                DecodeError::BadField { typ: "error".to_owned(), field: "message".to_owned() },
            ),
        }
    }
}

impl StatusMessage {
    /// Reads a `status` payload out of a parsed document.
    pub fn from_doc(doc: &WireDoc) -> (r: Result<StatusMessage, DecodeError>)
        ensures
            r matches Ok(m) ==> status_of_doc(doc@) matches Ok(sm) && m.status@ == sm.0 && (match m
                .message {
                Some(x) => Some(x@),
                None => None,
            }) == sm.1,
            r matches Err(e) ==> status_of_doc(doc@) matches Err(ev) && e@ == ev,
    {
        match &doc.status {
            WireField::Text(s) => match &doc.message {
                WireField::Absent => Ok(StatusMessage { status: s.clone(), message: None }),
                WireField::Null => Ok(StatusMessage { status: s.clone(), message: None }),
                WireField::Text(m) => Ok(
                    StatusMessage { status: s.clone(), message: Some(m.clone()) },
                ),
                _ => Err(
                    DecodeError::BadField {
                        typ: "status".to_owned(),
                        field: "message".to_owned(),
                    },
                ),
            },
            _ => Err(
                DecodeError::BadField { typ: "status".to_owned(), field: "status".to_owned() },
            ),
        }
    }
}

impl ResponseMessage {
    /// Reads a `response` payload out of a parsed document.
    pub fn from_doc(doc: &WireDoc) -> (r: Result<ResponseMessage, DecodeError>)
        ensures
            r matches Ok(m) ==> response_of_doc(doc@) matches Ok(rm) && m.answer@ == rm.0
                && item_views(m.sources@) == rm.1,
            r matches Err(e) ==> response_of_doc(doc@) matches Err(ev) && e@ == ev,
    {
        match &doc.answer {
            WireField::Text(a) => match &doc.sources {
                WireField::List(items) => Ok(
                    ResponseMessage { answer: a.clone(), sources: duplicate_items(items) },
                ),
                _ => Err(
                    DecodeError::BadField {
                        typ: "response".to_owned(),
                        field: "sources".to_owned(),
                    },
                ),
            },
            _ => Err(
                DecodeError::BadField { typ: "response".to_owned(), field: "answer".to_owned() },
            ),
        }
    }
}

/// The two sides of a decode outcome, seen through their models.
pub open spec fn message_result_view(r: Result<ServerMessage, DecodeError>) -> Result<
    ServerMessageView,
    DecodeErrorView,
> {
    match r {
        Ok(m) => Ok(m@),
        Err(e) => Err(e@),
    }
}

impl ServerMessage {
    /// Decodes a parsed document into one server message: reads the
    /// mandatory `type` key and dispatches over the six recognized values.
    pub fn from_doc(doc: &WireDoc) -> (r: Result<ServerMessage, DecodeError>)
        ensures
            message_result_view(r) == decode_doc_spec(doc@),
    {
        match &doc.typ {
            WireField::Text(t) => {
                if crate::text::str_eq(t.as_str(), "stream_start") {
                    Ok(ServerMessage::StreamStart)
                } else if crate::text::str_eq(t.as_str(), "stream_chunk") {
                    match StreamChunkMessage::from_doc(doc) {
                        Ok(m) => Ok(ServerMessage::StreamChunk(m.chunk)),
                        Err(e) => Err(e),
                    }
                } else if crate::text::str_eq(t.as_str(), "stream_end") {
                    match StreamEndMessage::from_doc(doc) {
                        Ok(m) => Ok(ServerMessage::StreamEnd(m.sources)),
                        Err(e) => Err(e),
                    }
                } else if crate::text::str_eq(t.as_str(), "error") {
                    match ErrorMessage::from_doc(doc) {
                        Ok(m) => Ok(ServerMessage::Error(m.message)),
                        Err(e) => Err(e),
                    }
                } else if crate::text::str_eq(t.as_str(), "status") {
                    match StatusMessage::from_doc(doc) {
                        Ok(m) => Ok(ServerMessage::Status { status: m.status, message: m.message }),
                        Err(e) => Err(e),
                    }
                } else if crate::text::str_eq(t.as_str(), "response") {
                    match ResponseMessage::from_doc(doc) {
                        Ok(m) => Ok(
                            ServerMessage::Response { answer: m.answer, sources: m.sources },
                        ),
                        Err(e) => Err(e),
                    }
                } else {
                    Err(DecodeError::UnknownType(t.clone()))
                }
            },
            _ => Err(DecodeError::MissingType),
        }
    }
}

// ─── Parsing the JSON text, trusted ──────────────────────────────────────

/// serde_json's document type, declared so that `json_field` below can take
/// it; opaque to the verifier.
#[verifier::external_type_specification]
#[verifier::external_body]
pub struct ExJsonValue(serde_json::Value);

/// What parsing one JSON text frame yields: the parsed document projected to
/// the keys this protocol reads, or, for text that is no JSON document, the
/// parser's failure message. Parsing is a function of the text alone; this
/// names its outcome.
pub uninterp spec fn wire_doc_of(s: Seq<char>) -> Result<WireDocView, Seq<char>>;

/// Relies on `serde_json::Value::get` and on the variants of
/// `serde_json::Value`: reads one key of a parsed document and classifies
/// its shape. Serves only `parse_wire_doc` below.
#[verifier::external_body]
fn json_field(v: &serde_json::Value, key: &str) -> WireField {
    match v.get(key) {
        None => WireField::Absent,
        Some(serde_json::Value::Null) => WireField::Null,
        Some(serde_json::Value::String(s)) => WireField::Text(s.clone()),
        Some(serde_json::Value::Array(items)) => WireField::List(
            items.iter().map(
                |it| match it {
                    serde_json::Value::String(s) => WireItem::Text(s.clone()),
                    _ => WireItem::Other,
                },
            ).collect(),
        ),
        Some(_) => WireField::Other,
    }
}

/// Relies on `serde_json::from_str::<serde_json::Value>`: parses one JSON
/// text frame; on success each key this protocol reads is taken out of the
/// document with `json_field`.
#[verifier::external_body]
fn parse_wire_doc(text: &str) -> (r: Result<WireDoc, String>)
    ensures
        r is Ok <==> wire_doc_of(text@) is Ok,
        r matches Ok(d) ==> wire_doc_of(text@) matches Ok(dv) && d@ == dv,
        r matches Err(e) ==> wire_doc_of(text@) matches Err(ev) && e@ == ev,
{
    match serde_json::from_str::<serde_json::Value>(text) {
        Err(e) => Err(e.to_string()),
        Ok(v) => Ok(WireDoc {
            typ: json_field(&v, "type"),
            question: json_field(&v, "question"),
            index: json_field(&v, "index"),
            chunk: json_field(&v, "chunk"),
            sources: json_field(&v, "sources"),
            message: json_field(&v, "message"),
            status: json_field(&v, "status"),
            answer: json_field(&v, "answer"),
        }),
    }
}

/// The whole inbound decode, over the text of one frame: what
/// [`ServerMessage::from_json`] returns.
pub open spec fn decode_text_spec(t: Seq<char>) -> Result<ServerMessageView, DecodeErrorView> {
    match wire_doc_of(t) {
        Err(e) => Err(DecodeErrorView::Malformed(e)),
        Ok(d) => decode_doc_spec(d),
    }
}

impl ServerMessage {
    /// Decodes one inbound JSON text frame into a server message.
    pub fn from_json(text: &str) -> (r: Result<ServerMessage, DecodeError>)
        ensures
            message_result_view(r) == decode_text_spec(text@),
    {
        match parse_wire_doc(text) {
            Err(e) => Err(DecodeError::Malformed(e)),
            Ok(doc) => ServerMessage::from_doc(&doc),
        }
    }
}

// ─── The outbound query message ──────────────────────────────────────────

/// The characters of an optional piece of text.
pub open spec fn opt_str_view(o: Option<&str>) -> Option<Seq<char>> {
    match o {
        Some(s) => Some(s@),
        None => None,
    }
}

/// Client → server: the one outbound message of the protocol.
#[derive(Debug, Clone)]
pub struct QueryMessage<'a> {
    pub typ: &'static str,
    pub question: &'a str,
    pub index: Option<&'a str>,
}

/// Mathematical model of a [`QueryMessage`].
pub struct QueryMessageView {
    pub typ: Seq<char>,
    pub question: Seq<char>,
    pub index: Option<Seq<char>>,
}

impl<'a> View for QueryMessage<'a> {
    type V = QueryMessageView;

    open spec fn view(&self) -> QueryMessageView {
        QueryMessageView { typ: self.typ@, question: self.question@, index: opt_str_view(self.index) }
    }
}

/// What serde_json renders a piece of text as: the JSON string literal for
/// it, quotes and escapes included. The rendering is a function of the
/// characters alone; this names its outcome.
pub uninterp spec fn json_text_of(s: Seq<char>) -> Seq<char>;

/// Relies on `serde_json::to_string::<str>`: renders text as a JSON string
/// literal. Serializing a string cannot fail.
#[verifier::external_body]
fn json_quote(s: &str) -> (r: String)
    ensures
        r@ == json_text_of(s@),
{
    serde_json::to_string(s).expect("serializing a string cannot fail")
}

/// The JSON text a query renders to: a `type` key, a `question` key, and an
/// `index` key present exactly when the query supplies one.
pub open spec fn query_json_spec(q: QueryMessageView) -> Seq<char> {
    "{\"type\":"@ + json_text_of(q.typ) + ",\"question\":"@ + json_text_of(q.question) + (match q
        .index {
        Some(ix) => ",\"index\":"@ + json_text_of(ix),
        None => Seq::<char>::empty(),
    }) + "}"@
}

/// The structured payload a query encodes to: the document that the text of
/// [`QueryMessage::to_json`] renders. `index` is present exactly when
/// supplied; no other key of the protocol appears.
pub open spec fn query_doc_spec(q: QueryMessageView) -> WireDocView {
    WireDocView {
        typ: WireFieldView::Text(q.typ),
        question: WireFieldView::Text(q.question),
        index: match q.index {
            Some(ix) => WireFieldView::Text(ix),
            None => WireFieldView::Absent,
        },
        chunk: WireFieldView::Absent,
        sources: WireFieldView::Absent,
        message: WireFieldView::Absent,
        status: WireFieldView::Absent,
        answer: WireFieldView::Absent,
    }
}

/// Reading a query payload back: the inverse of [`query_doc_spec`]. The
/// `index` key may be absent or null (no index) or a string; anything else
/// fails, as does a missing `question` or a `type` other than `query`.
pub open spec fn parse_query_spec(d: WireDocView) -> Result<QueryMessageView, DecodeErrorView> {
    match d.typ {
        WireFieldView::Text(t) => if t == "query"@ {
            match d.question {
                WireFieldView::Text(q) => match d.index {
                    WireFieldView::Text(ix) => Ok(
                        QueryMessageView { typ: t, question: q, index: Some(ix) },
                    ),
                    WireFieldView::Absent => Ok(
                        QueryMessageView { typ: t, question: q, index: None },
                    ),
                    WireFieldView::Null => Ok(
                        QueryMessageView { typ: t, question: q, index: None },
                    ),
                    _ => Err(bad_field("query"@, "index"@)),
                },
                _ => Err(bad_field("query"@, "question"@)),
            }
        } else {
            Err(DecodeErrorView::UnknownType(t))
        },
        _ => Err(DecodeErrorView::MissingType),
    }
}

impl<'a> QueryMessage<'a> {
    /// A fresh query for one exchange.
    pub fn new(question: &'a str, index: Option<&'a str>) -> (r: Self)
        ensures
            r@ == (QueryMessageView {
                typ: "query"@,
                question: question@,
                index: opt_str_view(index),
            }),
    {
        Self { typ: "query", question, index }
    }

    /// Renders this query as the JSON text frame to send.
    pub fn to_json(&self) -> (r: String)
        ensures
            r@ == query_json_spec(self@),
    {
        let mut s = "{\"type\":".to_owned();
        let qt = json_quote(self.typ);
        s.append(qt.as_str());
        s.append(",\"question\":");
        let qq = json_quote(self.question);
        s.append(qq.as_str());
        match self.index {
            Some(ix) => {
                s.append(",\"index\":");
                let qi = json_quote(ix);
                s.append(qi.as_str());
            },
            None => {},
        }
        s.append("}");
        proof {
            assert(s@ =~= query_json_spec(self@));
        }
        s
    }

    /// The structured payload this query encodes to.
    pub fn to_fields(&self) -> (d: WireDoc)
        ensures
            d@ == query_doc_spec(self@),
    {
        WireDoc {
            typ: WireField::Text(self.typ.to_owned()),
            question: WireField::Text(self.question.to_owned()),
            index: match self.index {
                Some(ix) => WireField::Text(ix.to_owned()),
                None => WireField::Absent,
            },
            chunk: WireField::Absent,
            sources: WireField::Absent,
            message: WireField::Absent,
            status: WireField::Absent,
            answer: WireField::Absent,
        }
    }

    /// Reads a query payload back out of a parsed document.
    pub fn from_fields(doc: &'a WireDoc) -> (r: Result<QueryMessage<'a>, DecodeError>)
        ensures
            r matches Ok(q) ==> parse_query_spec(doc@) matches Ok(qv) && q@ == qv,
            r matches Err(e) ==> parse_query_spec(doc@) matches Err(ev) && e@ == ev,
            r is Ok <==> parse_query_spec(doc@) is Ok,
    {
        match &doc.typ {
            WireField::Text(t) => {
                if !crate::text::str_eq(t.as_str(), "query") {
                    return Err(DecodeError::UnknownType(t.clone()));
                }
                match &doc.question {
                    WireField::Text(q) => match &doc.index {
                        WireField::Text(ix) => Ok(
                            QueryMessage {
                                typ: "query",
                                question: q.as_str(),
                                index: Some(ix.as_str()),
                            },
                        ),
                        WireField::Absent => Ok(
                            QueryMessage { typ: "query", question: q.as_str(), index: None },
                        ),
                        WireField::Null => Ok(
                            QueryMessage { typ: "query", question: q.as_str(), index: None },
                        ),
                        _ => Err(
                            DecodeError::BadField {
                                typ: "query".to_owned(),
                                field: "index".to_owned(),
                            },
                        ),
                    },
                    _ => Err(
                        DecodeError::BadField {
                            typ: "query".to_owned(),
                            field: "question".to_owned(),
                        },
                    ),
                }
            },
            _ => Err(DecodeError::MissingType),
        }
    }
}

/// Law: encoding a query to its structured payload and reading that payload
/// back recovers the query, and the payload carries an `index` key exactly
/// when the query supplied one.
pub proof fn lemma_query_round_trip(q: QueryMessageView)
    requires
        q.typ == "query"@,
    ensures
        parse_query_spec(query_doc_spec(q)) == Ok::<QueryMessageView, DecodeErrorView>(q),
        (query_doc_spec(q).index is Text) <==> q.index is Some,
{
}

} // verus!
