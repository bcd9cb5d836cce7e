use vstd::prelude::*;
use vstd::string::StringExecFns;

use crate::client::BinanceAPI;
use crate::session::spec_session_key;

verus! {

/// The two kinds of WebSocket stream the exchange offers: the shared
/// market stream, and the account stream gated by a listen key.
#[derive(Debug, Clone, Copy, PartialEq, Eq, Structural)]
pub enum StreamKind {
    Market,
    Account,
}

/// One frame read off a WebSocket connection, as the library sees it:
/// a text frame's payload, or any other kind of frame.
#[derive(Debug)]
pub enum WsFrame {
    Text(String),
    Other,
}

/// The URL a stream is opened on: the mode's stream URL, with the
/// session's listen key appended as a path segment for the account
/// stream. With no active session the account URL ends in a bare `/` and
/// names no authorized stream; callers open the account stream only on an
/// active session.
pub open spec fn spec_websocket_url(
    stream_base: Seq<char>,
    session_key: Seq<char>,
    kind: StreamKind,
) -> Seq<char> {
    match kind {
        StreamKind::Market => stream_base,
        StreamKind::Account => stream_base + seq!['/'] + session_key,
    }
}

/// What a received frame reads as: a text frame's payload as it stands;
/// every other frame maps to one fixed JSON error sentinel, not
/// distinguishable from a server-sent error by design.
pub open spec fn spec_frame_text(f: WsFrame) -> Seq<char> {
    match f {
        WsFrame::Text(m) => m@,
        WsFrame::Other => "{\"Error\":\"Can't getting text from websocket.\"}"@,
    }
}

impl BinanceAPI {
    /// The URL to open the given stream kind on.
    pub fn websocket_url(&self, type_ws: StreamKind) -> (r: String)
        requires
            self.wf(),
        ensures
            r@ == spec_websocket_url(self.wss_url@, spec_session_key(self.session), type_ws),
    {
        match type_ws {
            StreamKind::Market => self.wss_url.clone(),
            StreamKind::Account => {
                let mut url = self.wss_url.clone();
                url.append("/");
                match &self.session {
                    crate::session::SessionState::Absent => {},
                    crate::session::SessionState::Active(k) => {
                        url.append(k.as_str());
                    },
                }
                proof {
                    reveal_strlit("/");
                    assert(url@ =~= spec_websocket_url(
                        self.wss_url@,
                        spec_session_key(self.session),
                        type_ws,
                    ));
                }
                url
            },
        }
    }
}

/// The payload of one received frame; a non-text frame becomes the fixed
/// error sentinel.
pub fn frame_text(frame: WsFrame) -> (r: String)
    ensures
        r@ == spec_frame_text(frame),
{
    match frame {
        WsFrame::Text(m) => m,
        WsFrame::Other => "{\"Error\":\"Can't getting text from websocket.\"}".to_owned(),
    }
}

/// The view of each symbol string.
pub open spec fn spec_strings_view(v: Seq<String>) -> Seq<Seq<char>> {
    v.map(|i: int, s: String| s@)
}

/// The result of lowercasing a text, named after `str::to_lowercase`: a
/// function of the characters alone.
pub uninterp spec fn lower_of(s: Seq<char>) -> Seq<char>;

/// Relies on `str::to_lowercase`: the result depends on the input
/// characters alone.
#[verifier::external_body]
pub(crate) fn lowercase(s: &str) -> (r: String)
    ensures
        r@ == lower_of(s@),
{
    s.to_lowercase()
}

/// One quoted stream topic: the lowercased symbol, `@`, the channel.
pub open spec fn spec_stream_topic(sym: Seq<char>, sub_type: Seq<char>) -> Seq<char> {
    seq!['"'] + lower_of(sym) + seq!['@'] + sub_type + seq!['"']
}

/// The topics of all symbols, joined by commas.
pub open spec fn spec_topic_list(syms: Seq<Seq<char>>, sub_type: Seq<char>) -> Seq<char>
    decreases syms.len(),
{
    if syms.len() == 0 {
        Seq::empty()
    } else if syms.len() == 1 {
        spec_stream_topic(syms[0], sub_type)
    } else {
        spec_topic_list(syms.drop_last(), sub_type) + seq![','] + spec_stream_topic(
            syms.last(),
            sub_type,
        )
    }
}

/// The one text frame a subscribe call sends.
pub open spec fn spec_subscribe_frame(syms: Seq<Seq<char>>, sub_type: Seq<char>) -> Seq<char> {
    "{\"method\": \"SUBSCRIBE\", \"params\": ["@ + spec_topic_list(syms, sub_type)
        + "], \"id\": 1}"@
}

/// The one text frame an unsubscribe call sends.
pub open spec fn spec_unsubscribe_frame(syms: Seq<Seq<char>>, sub_type: Seq<char>) -> Seq<char> {
    "{\"method\": \"UNSUBSCRIBE\", \"params\": ["@ + spec_topic_list(syms, sub_type)
        + "], \"id\": 312}"@
}

fn topic_list(symbols: &Vec<String>, sub_type: &str) -> (r: String)
    ensures
        r@ == spec_topic_list(spec_strings_view(symbols@), sub_type@),
{
    let ghost syms = spec_strings_view(symbols@);
    let mut s = String::new();
    let n = symbols.len();
    let mut i: usize = 0;
    proof {
        assert(syms.take(0) =~= Seq::<Seq<char>>::empty());
    }
    while i < n
        invariant
            i <= n,
            n == symbols.len(),
            syms == spec_strings_view(symbols@),
            s@ == spec_topic_list(syms.take(i as int), sub_type@),
        decreases n - i,
    {
        if i > 0 {
            s.append(",");
        }
        s.append("\"");
        let lowered = lowercase(symbols[i].as_str());
        s.append(lowered.as_str());
        s.append("@");
        s.append(sub_type);
        s.append("\"");
        proof {
            reveal_strlit(",");
            reveal_strlit("\"");
            reveal_strlit("@");
            assert(","@ =~= seq![',']);
            assert("\""@ =~= seq!['"']);
            assert("@"@ =~= seq!['@']);
            assert(syms.take(i + 1).drop_last() =~= syms.take(i as int));
            assert(syms.take(i + 1).last() == syms[i as int]);
            assert(s@ =~= spec_topic_list(syms.take(i + 1), sub_type@));
        }
        i += 1;
    }
    proof {
        assert(syms.take(n as int) =~= syms);
    }
    s
}

/// Builds the subscribe control message: method `SUBSCRIBE`, the
/// lowercased `symbol@channel` topics in the symbols' order, and the
/// fixed id 1. The caller sends it as one text frame.
pub fn subscribe_message(symbols: &Vec<String>, sub_type: &str) -> (r: String)
    ensures
        r@ == spec_subscribe_frame(spec_strings_view(symbols@), sub_type@),
{
    let mut s = "{\"method\": \"SUBSCRIBE\", \"params\": [".to_owned();
    let topics = topic_list(symbols, sub_type);
    s.append(topics.as_str());
    s.append("], \"id\": 1}");
    s
}

/// Builds the unsubscribe control message: method `UNSUBSCRIBE`, the same
/// topics, and the fixed id 312. The caller sends it as one text frame.
pub fn unsubscribe_message(symbols: &Vec<String>, sub_type: &str) -> (r: String)
    ensures
        r@ == spec_unsubscribe_frame(spec_strings_view(symbols@), sub_type@),
{
    let mut s = "{\"method\": \"UNSUBSCRIBE\", \"params\": [".to_owned();
    let topics = topic_list(symbols, sub_type);
    s.append(topics.as_str());
    s.append("], \"id\": 312}");
    s
}

} // verus!
