//! Backend of the desktop front end: form values for the configuration
//! file, the one-connection slot, and the assembly of a chat reply from the
//! events of one exchange. The front end itself, file reading and the
//! asynchronous transport stay with the caller.

use vstd::prelude::*;

use crate::client::{Client, StreamEvent, StreamEventView, event_views};
use crate::config::{ApiSection, Config, ServerSection};
use crate::text::{clone_strings, opt_string_view, string_views};

verus! {

// ─── Configuration form values ───────────────────────────────────────────

/// The configuration as the front end edits it: every setting present, with
/// defaults standing in for absent ones.
#[derive(Debug, Clone, PartialEq, Eq)]
pub struct ConfigForm {
    pub api_base_url: String,
    pub api_key: String,
    pub embedding_model: String,
    pub llm_model: String,
    pub server_port: u16,
    pub directories: Vec<String>,
    pub reload_interval: u64,
    pub index_name: String,
}

impl Default for ConfigForm {
    /// The form over the built-in defaults: empty texts, port 8765, reload
    /// every 300 seconds, index `default`.
    fn default() -> (r: ConfigForm)
        ensures
            r.api_base_url@ == Seq::<char>::empty(),
            r.api_key@ == Seq::<char>::empty(),
            r.embedding_model@ == Seq::<char>::empty(),
            r.llm_model@ == Seq::<char>::empty(),
            r.server_port == 8765,
            r.directories@.len() == 0,
            r.reload_interval == 300,
            r.index_name@ == "default"@,
    {
        ConfigForm {
            api_base_url: String::new(),
            api_key: String::new(),
            embedding_model: String::new(),
            llm_model: String::new(),
            server_port: 8765,
            directories: Vec::new(),
            reload_interval: 300,
            index_name: "default".to_owned(),
        }
    }
}

/// The characters of an optional string, or none for an absent one.
pub open spec fn or_empty(o: Option<Seq<char>>) -> Seq<char> {
    match o {
        Some(s) => s,
        None => Seq::empty(),
    }
}

/// The text of an optional setting, the empty text standing in for an
/// absent one.
fn unwrap_text(o: Option<String>) -> (r: String)
    ensures
        r@ == or_empty(opt_string_view(o)),
{
    match o {
        Some(s) => s,
        None => String::new(),
    }
}

impl ConfigForm {
    /// The form a configuration record presents as: absent settings become
    /// the form's defaults.
    pub fn from_config(c: Config) -> (r: ConfigForm)
        ensures
            r.api_base_url@ == or_empty(c@.api.base_url),
            r.api_key@ == or_empty(c@.api.api_key),
            r.embedding_model@ == or_empty(c@.api.embedding_model),
            r.llm_model@ == or_empty(c@.api.llm_model),
            r.server_port == (match c@.server.port {
                Some(p) => p,
                None => 8765u16,
            }),
            string_views(r.directories@) == c@.server.directories,
            r.reload_interval == (match c@.server.reload_interval {
                Some(s) => s,
                None => 300u64,
            }),
            r.index_name@ == (match c@.server.index_name {
                Some(n) => n,
                None => "default"@,
            }),
    {
        ConfigForm {
            api_base_url: unwrap_text(c.api.base_url),
            api_key: unwrap_text(c.api.api_key),
            embedding_model: unwrap_text(c.api.embedding_model),
            llm_model: unwrap_text(c.api.llm_model),
            server_port: match c.server.port {
                Some(p) => p,
                None => 8765,
            },
            directories: c.server.directories,
            reload_interval: match c.server.reload_interval {
                Some(s) => s,
                None => 300,
            },
            index_name: match c.server.index_name {
                Some(n) => n,
                None => "default".to_owned(),
            },
        }
    }

    /// The configuration record a form saves as: every setting present.
    pub fn into_config(self) -> (r: Config)
        ensures
            r@.api.base_url == Some(self.api_base_url@),
            r@.api.api_key == Some(self.api_key@),
            r@.api.embedding_model == Some(self.embedding_model@),
            r@.api.llm_model == Some(self.llm_model@),
            r@.server.port == Some(self.server_port),
            r@.server.directories == string_views(self.directories@),
            r@.server.reload_interval == Some(self.reload_interval),
            r@.server.index_name == Some(self.index_name@),
    {
        Config {
            api: ApiSection {
                base_url: Some(self.api_base_url),
                api_key: Some(self.api_key),
                embedding_model: Some(self.embedding_model),
                llm_model: Some(self.llm_model),
            },
            server: ServerSection {
                port: Some(self.server_port),
                directories: self.directories,
                reload_interval: Some(self.reload_interval),
                index_name: Some(self.index_name),
            },
        }
    }
}

// ─── Connection slot and status ──────────────────────────────────────────

/// The one connection the front end holds, or none. The caller owns the
/// slot and passes it in; a front end that wants a process-wide slot keeps
/// this value in a cell of its own.
pub struct ConnectionSlot {
    current: Option<Client>,
}

impl ConnectionSlot {
    /// Whether a connection is held.
    pub closed spec fn connected(&self) -> bool {
        self.current is Some
    }

    /// An empty slot: no connection.
    pub fn new() -> (r: ConnectionSlot)
        ensures
            !r.connected(),
    {
        ConnectionSlot { current: None }
    }

    /// Puts a fresh connection into the slot, dropping any previous one.
    pub fn put(&mut self, client: Client)
        ensures
            final(self).connected(),
    {
        self.current = Some(client);
    }

    /// The held connection, to run one exchange over.
    pub fn client(&self) -> (r: Option<&Client>)
        ensures
            r is Some <==> self.connected(),
    {
        self.current.as_ref()
    }
}

/// Whether the slot holds a connection.
pub fn is_connected(slot: &ConnectionSlot) -> (r: bool)
    ensures
        r == slot.connected(),
{
    slot.client().is_some()
}

/// Drops the held connection, if any; safe on an empty slot.
pub fn do_disconnect(slot: &mut ConnectionSlot)
    ensures
        !final(slot).connected(),
{
    slot.current = None;
}

/// Connection state reported to the front end.
#[derive(Debug, Clone, PartialEq, Eq)]
pub struct ConnectionStatus {
    /// `connected`, `disconnected`, or `error`.
    pub state: String,
    /// The failure, when the state is not `connected`.
    pub message: Option<String>,
}

/// The status of the slot as reported to the front end: `connected` or
/// `disconnected`, with no message.
pub fn connection_status(slot: &ConnectionSlot) -> (r: ConnectionStatus)
    ensures
        r.state@ == (if slot.connected() {
            "connected"@
        } else {
            "disconnected"@
        }),
        r.message is None,
{
    if is_connected(slot) {
        ConnectionStatus { state: "connected".to_owned(), message: None }
    } else {
        ConnectionStatus { state: "disconnected".to_owned(), message: None }
    }
}

// ─── Assembling a chat reply ─────────────────────────────────────────────

/// A chat reply for the front end: the chunks of one exchange joined into
/// the answer, the sources of its stream end, and the server's error if one
/// came.
#[derive(Debug, Clone, PartialEq, Eq)]
pub struct ChatReply {
    pub answer: String,
    pub sources: Vec<String>,
    pub error: Option<String>,
}

/// The chunks of an event list, joined in order.
pub open spec fn chunks_concat(events: Seq<StreamEventView>) -> Seq<char>
    decreases events.len(),
{
    if events.len() == 0 {
        Seq::empty()
    } else {
        chunks_concat(events.drop_last()) + (match events.last() {
            StreamEventView::StreamChunk(c) => c,
            _ => Seq::empty(),
        })
    }
}

/// The sources of the last stream-end event, or none before one.
pub open spec fn final_sources(events: Seq<StreamEventView>) -> Seq<Seq<char>>
    decreases events.len(),
{
    if events.len() == 0 {
        Seq::empty()
    } else {
        match events.last() {
            StreamEventView::StreamEnd(s) => s,
            _ => final_sources(events.drop_last()),
        }
    }
}

/// The message of the last error event, or none without one.
pub open spec fn final_error(events: Seq<StreamEventView>) -> Option<Seq<char>>
    decreases events.len(),
{
    if events.len() == 0 {
        None
    } else {
        match events.last() {
            StreamEventView::Error(m) => Some(m),
            _ => final_error(events.drop_last()),
        }
    }
}

/// Folds the events of one exchange into the reply the front end shows.
pub fn assemble_reply(events: &Vec<StreamEvent>) -> (r: ChatReply)
    ensures
        r.answer@ == chunks_concat(event_views(events@)),
        string_views(r.sources@) == final_sources(event_views(events@)),
        opt_string_view(r.error) == final_error(event_views(events@)),
{
    let ghost ev = event_views(events@);
    let mut answer: String = String::new();
    let mut sources: Vec<String> = Vec::new();
    let mut error: Option<String> = None;
    let mut i: usize = 0;
    while i < events.len()
        invariant
            i <= events.len(),
            ev == event_views(events@),
            ev.len() == events@.len(),
            answer@ == chunks_concat(ev.take(i as int)),
            string_views(sources@) == final_sources(ev.take(i as int)),
            opt_string_view(error) == final_error(ev.take(i as int)),
        decreases events.len() - i,
    {
        proof {
            assert(ev.take(i as int + 1).drop_last() =~= ev.take(i as int));
            assert(ev.take(i as int + 1).last() == ev[i as int]);
            assert(ev[i as int] == events@[i as int]@);
        }
        match &events[i] {
            StreamEvent::StreamStart => {
                assert(answer@ =~= chunks_concat(ev.take(i as int + 1)));
            },
            StreamEvent::StreamChunk(chunk) => {
                answer.append(chunk.as_str());
            },
            StreamEvent::StreamEnd(srcs) => {
                sources = clone_strings(srcs);
            },
            StreamEvent::Error(message) => {
                error = Some(message.clone());
            },
        }
        i += 1;
    }
    proof {
        assert(ev.take(events@.len() as int) =~= ev);
    }
    ChatReply { answer, sources, error }
}

} // verus!
