//! The acceptor's decisions: which requests may become a session, under which
//! station name, and what the others are told. Listening and the WebSocket
//! handshake happen outside this library.

use crate::text::{chars_of, reads};
use vstd::prelude::*;

verus! {

/// HTTP status of the answer to a request that asks for no upgrade.
pub const UPGRADE_REQUIRED: u16 = 426;

/// HTTP status of the answer to a request whose path names no station.
pub const BAD_REQUEST: u16 = 400;

/// HTTP status of the answer to a request whose handshake failed.
pub const INTERNAL_SERVER_ERROR: u16 = 500;

/// An HTTP answer that refuses a request.
pub struct HttpReply {
    pub status: u16,
    /// The headers as pairs of name and value, in the order they are sent.
    pub headers: Vec<(String, String)>,
    pub body: String,
}

/// An HTTP answer in contracts.
pub struct HttpReplyView {
    pub status: u16,
    pub headers: Seq<(Seq<char>, Seq<char>)>,
    pub body: Seq<char>,
}

impl View for HttpReply {
    type V = HttpReplyView;

    open spec fn view(&self) -> HttpReplyView {
        HttpReplyView {
            status: self.status,
            headers: Seq::new(
                self.headers@.len(),
                |i: int| (self.headers@[i].0@, self.headers@[i].1@),
            ),
            body: self.body@,
        }
    }
}

/// The header that every refusal carries.
pub open spec fn plain_text() -> (Seq<char>, Seq<char>) {
    ("Content-Type"@, "text/plain"@)
}

/// The answer to a request that asks for no WebSocket upgrade.
pub open spec fn upgrade_required() -> HttpReplyView {
    HttpReplyView {
        status: UPGRADE_REQUIRED,
        headers: seq![("Upgrade"@, "websocket"@), ("Connection"@, "Upgrade"@), plain_text()],
        body: "This endpoint requires a WebSocket upgrade request."@,
    }
}

/// The answer to a request whose path names no station.
pub open spec fn invalid_uri() -> HttpReplyView {
    HttpReplyView {
        status: BAD_REQUEST,
        headers: seq![plain_text()],
        body: "Invalid URI format. Expected: /ocpp/{charging_station_name}"@,
    }
}

/// The answer to a request whose WebSocket handshake failed.
pub open spec fn upgrade_failed() -> HttpReplyView {
    HttpReplyView {
        status: INTERNAL_SERVER_ERROR,
        headers: seq![plain_text()],
        body: "WebSocket upgrade failed. Please try again."@,
    }
}

/// A path read from the left: the segments that a slash has closed, and the
/// run of characters since the last slash. Empty runs are no segments.
pub open spec fn scanned(path: Seq<char>) -> (Seq<Seq<char>>, Seq<char>)
    decreases path.len(),
{
    if path.len() == 0 {
        (Seq::empty(), Seq::empty())
    } else {
        let (closed, run) = scanned(path.drop_last());
        if path.last() == '/' {
            (
                if run.len() > 0 {
                    closed.push(run)
                } else {
                    closed
                },
                Seq::empty(),
            )
        } else {
            (closed, run.push(path.last()))
        }
    }
}

/// The non-empty segments of a path, in order: the longest runs of characters
/// without a slash.
pub open spec fn segments(path: Seq<char>) -> Seq<Seq<char>> {
    let (closed, run) = scanned(path);
    if run.len() > 0 {
        closed.push(run)
    } else {
        closed
    }
}

/// The station that a path names: the path has exactly two non-empty
/// segments, the first is `ocpp` and the second is the name.
pub open spec fn station_name(path: Seq<char>) -> Option<Seq<char>> {
    let parts = segments(path);
    if parts.len() == 2 && parts[0] == "ocpp"@ {
        Some(parts[1])
    } else {
        None
    }
}

/// The pieces of `path` that the given spans cut out.
pub open spec fn cut(path: Seq<char>, spans: Seq<(usize, usize)>) -> Seq<Seq<char>> {
    Seq::new(spans.len(), |k: int| path.subrange(spans[k].0 as int, spans[k].1 as int))
}

/// Where the non-empty segments of `path` begin and end, counted in
/// characters.
fn segment_spans(path: &str) -> (spans: Vec<(usize, usize)>)
    ensures
        cut(path@, spans@) == segments(path@),
        forall|k: int|
            0 <= k < spans@.len() ==> (#[trigger] spans@[k]).0 <= spans@[k].1 <= path@.len(),
{
    let chars = chars_of(path);
    let mut spans: Vec<(usize, usize)> = Vec::new();
    let mut start: usize = 0;
    let mut i: usize = 0;
    assert(path@.take(0) =~= Seq::<char>::empty());
    assert(cut(path@, spans@) =~= scanned(path@.take(0)).0);
    assert(path@.subrange(0, 0) =~= scanned(path@.take(0)).1);
    while i < chars.len()
        invariant
            chars@ == path@,
            start <= i <= chars.len(),
            scanned(path@.take(i as int)).0 == cut(path@, spans@),
            scanned(path@.take(i as int)).1 == path@.subrange(start as int, i as int),
            forall|k: int|
                0 <= k < spans@.len() ==> (#[trigger] spans@[k]).0 <= spans@[k].1 <= path@.len(),
        decreases chars.len() - i,
    {
        let ghost before = path@.take(i as int);
        let ghost after = path@.take(i + 1);
        let ghost old_spans = spans@;
        assert(after.drop_last() =~= before);
        assert(after.last() == path@[i as int]);
        if chars[i] == '/' {
            if start < i {
                spans.push((start, i));
                assert(cut(path@, spans@) =~= cut(path@, old_spans).push(
                    path@.subrange(start as int, i as int),
                ));
            }
            start = i + 1;
            assert(path@.subrange(start as int, i + 1) =~= Seq::<char>::empty());
        } else {
            assert(path@.subrange(start as int, i + 1) =~= path@.subrange(
                start as int,
                i as int,
            ).push(path@[i as int]));
        }
        i = i + 1;
    }
    assert(path@.take(i as int) =~= path@);
    if start < i {
        let ghost old_spans = spans@;
        spans.push((start, i));
        assert(cut(path@, spans@) =~= cut(path@, old_spans).push(
            path@.subrange(start as int, i as int),
        ));
    }
    spans
}

/// What `extract_name` found: the station's name, or the refusal to send.
pub enum ExtractNameResult {
    Name(String),
    Error(HttpReply),
}

/// The outcome of reading a path, in contracts.
pub open spec fn extracted(path: Seq<char>) -> Result<Seq<char>, HttpReplyView> {
    match station_name(path) {
        Some(name) => Ok(name),
        None => Err(invalid_uri()),
    }
}

impl ExtractNameResult {
    /// The outcome in contracts.
    pub open spec fn outcome(self) -> Result<Seq<char>, HttpReplyView> {
        match self {
            ExtractNameResult::Name(name) => Ok(name@),
            ExtractNameResult::Error(reply) => Err(reply@),
        }
    }
}

/// One header.
fn header(name: &str, value: &str) -> (r: (String, String))
    ensures
        r.0@ == name@,
        r.1@ == value@,
{
    (String::from_str(name), String::from_str(value))
}

/// Builds the refusal of a request that asks for no WebSocket upgrade.
pub fn reply_upgrade_required() -> (r: HttpReply)
    ensures
        r@ == upgrade_required(),
{
    let mut headers: Vec<(String, String)> = Vec::new();
    headers.push(header("Upgrade", "websocket"));
    headers.push(header("Connection", "Upgrade"));
    headers.push(header("Content-Type", "text/plain"));
    let r = HttpReply {
        status: UPGRADE_REQUIRED,
        headers,
        body: String::from_str("This endpoint requires a WebSocket upgrade request."),
    };
    assert(r@.headers =~= upgrade_required().headers);
    r
}

/// Builds the refusal of a request whose path names no station.
pub fn reply_invalid_uri() -> (r: HttpReply)
    ensures
        r@ == invalid_uri(),
{
    let mut headers: Vec<(String, String)> = Vec::new();
    headers.push(header("Content-Type", "text/plain"));
    let r = HttpReply {
        status: BAD_REQUEST,
        headers,
        body: String::from_str("Invalid URI format. Expected: /ocpp/{charging_station_name}"),
    };
    assert(r@.headers =~= invalid_uri().headers);
    r
}

/// Builds the refusal of a request whose WebSocket handshake failed.
pub fn reply_upgrade_failed() -> (r: HttpReply)
    ensures
        r@ == upgrade_failed(),
{
    let mut headers: Vec<(String, String)> = Vec::new();
    headers.push(header("Content-Type", "text/plain"));
    let r = HttpReply {
        status: INTERNAL_SERVER_ERROR,
        headers,
        body: String::from_str("WebSocket upgrade failed. Please try again."),
    };
    assert(r@.headers =~= upgrade_failed().headers);
    r
}

/// Reads the station's name from the path of a request. The path names a
/// station where its non-empty segments are `ocpp` and the name, and nothing
/// else; any other path is refused.
pub fn extract_name(path: &str) -> (r: ExtractNameResult)
    ensures
        r.outcome() == extracted(path@),
{
    let spans = segment_spans(path);
    if spans.len() == 2 {
        let first = path.substring_char(spans[0].0, spans[0].1);
        if reads(first, "ocpp") {
            let name = path.substring_char(spans[1].0, spans[1].1);
            return ExtractNameResult::Name(String::from_str(name));
        }
    }
    ExtractNameResult::Error(reply_invalid_uri())
}

/// What the acceptor does with a request.
pub enum Admission {
    /// The request is answered with a refusal and the connection stays HTTP.
    Refuse(HttpReply),
    /// The WebSocket handshake may go ahead for the station of this name.
    Upgrade { name: String },
}

/// An admission in contracts.
pub enum AdmissionView {
    Refuse(HttpReplyView),
    Upgrade { name: Seq<char> },
}

impl View for Admission {
    type V = AdmissionView;

    open spec fn view(&self) -> AdmissionView {
        match self {
            Admission::Refuse(reply) => AdmissionView::Refuse(reply@),
            Admission::Upgrade { name } => AdmissionView::Upgrade { name: name@ },
        }
    }
}

/// What a request is owed. One that asks for no WebSocket upgrade is told to;
/// one with a query string, or whose path names no station, is refused as
/// malformed; any other may go on to the handshake.
pub open spec fn admission(is_upgrade: bool, path: Seq<char>, has_query: bool) -> AdmissionView {
    if !is_upgrade {
        AdmissionView::Refuse(upgrade_required())
    } else if has_query {
        AdmissionView::Refuse(invalid_uri())
    } else {
        match station_name(path) {
            Some(name) => AdmissionView::Upgrade { name },
            None => AdmissionView::Refuse(invalid_uri()),
        }
    }
}

/// Decides on a request from what the HTTP layer read of it: whether it asks
/// for a WebSocket upgrade, the path of its target, and the query string of
/// its target if it has one.
pub fn handle_request(is_upgrade: bool, path: &str, query: Option<&str>) -> (r: Admission)
    ensures
        r@ == admission(is_upgrade, path@, query is Some),
{
    if !is_upgrade {
        return Admission::Refuse(reply_upgrade_required());
    }
    if query.is_some() {
        return Admission::Refuse(reply_invalid_uri());
    }
    match extract_name(path) {
        ExtractNameResult::Name(name) => Admission::Upgrade { name },
        ExtractNameResult::Error(reply) => Admission::Refuse(reply),
    }
}

/// Whether `s` holds no slash.
pub open spec fn slash_free(s: Seq<char>) -> bool {
    forall|i: int| 0 <= i < s.len() ==> s[i] != '/'
}

/// What a scan has closed are segments: none is empty and none holds a slash.
/// The open run holds no slash either.
proof fn lemma_scanned_pieces(path: Seq<char>)
    ensures
        forall|k: int|
            0 <= k < scanned(path).0.len() ==> (#[trigger] scanned(path).0[k]).len() > 0
                && slash_free(scanned(path).0[k]),
        slash_free(scanned(path).1),
    decreases path.len(),
{
    if path.len() > 0 {
        lemma_scanned_pieces(path.drop_last());
    }
}

/// A scan runs through a stretch without slashes by adding it to the open
/// run.
proof fn lemma_scanned_run(prefix: Seq<char>, stretch: Seq<char>)
    requires
        slash_free(stretch),
    ensures
        scanned(prefix + stretch) == (scanned(prefix).0, scanned(prefix).1 + stretch),
    decreases stretch.len(),
{
    if stretch.len() == 0 {
        assert(prefix + stretch =~= prefix);
        assert(scanned(prefix).1 + stretch =~= scanned(prefix).1);
    } else {
        let shorter = stretch.drop_last();
        assert(slash_free(shorter));
        lemma_scanned_run(prefix, shorter);
        assert((prefix + stretch).drop_last() =~= prefix + shorter);
        assert((prefix + stretch).last() == stretch.last());
        assert(stretch.last() != '/');
        assert((scanned(prefix).1 + shorter).push(stretch.last()) =~= scanned(prefix).1
            + stretch);
    }
}

/// The name that a path gives a station is one segment of the path: it is
/// not empty and holds no slash.
pub proof fn lemma_station_name_is_segment(path: Seq<char>)
    ensures
        station_name(path) matches Some(name) ==> name.len() > 0 && slash_free(name),
{
    lemma_scanned_pieces(path);
    let (closed, run) = scanned(path);
    if run.len() > 0 {
        let parts = closed.push(run);
        assert(forall|k: int| 0 <= k < closed.len() ==> parts[k] == closed[k]);
    }
}

/// The path `/ocpp/` followed by a name names that station, whatever the
/// name, as long as it is one segment.
pub proof fn lemma_station_path(name: Seq<char>)
    requires
        name.len() > 0,
        slash_free(name),
    ensures
        station_name("/ocpp/"@ + name) == Some(name),
{
    reveal_strlit("/ocpp/");
    reveal_strlit("ocpp");
    let read0 = Seq::<char>::empty();
    let read1 = seq!['/'];
    let read2 = seq!['/', 'o'];
    let read3 = seq!['/', 'o', 'c'];
    let read4 = seq!['/', 'o', 'c', 'p'];
    let read5 = seq!['/', 'o', 'c', 'p', 'p'];
    let read6 = seq!['/', 'o', 'c', 'p', 'p', '/'];
    assert(read1.drop_last() =~= read0);
    assert(read2.drop_last() =~= read1);
    assert(read3.drop_last() =~= read2);
    assert(read4.drop_last() =~= read3);
    assert(read5.drop_last() =~= read4);
    assert(read6.drop_last() =~= read5);
    assert(scanned(read0) == (Seq::<Seq<char>>::empty(), Seq::<char>::empty()));
    assert(scanned(read1) == (Seq::<Seq<char>>::empty(), Seq::<char>::empty()));
    assert(scanned(read2).1 =~= seq!['o'] && scanned(read2).0 == Seq::<Seq<char>>::empty());
    assert(scanned(read3).1 =~= seq!['o', 'c'] && scanned(read3).0 == Seq::<Seq<char>>::empty());
    assert(scanned(read4).1 =~= seq!['o', 'c', 'p'] && scanned(read4).0 == Seq::<Seq<char>>::empty());
    assert(scanned(read5).1 =~= seq!['o', 'c', 'p', 'p'] && scanned(read5).0 == Seq::<
        Seq<char>,
    >::empty());
    assert("ocpp"@ =~= seq!['o', 'c', 'p', 'p']);
    assert(scanned(read6).1 =~= Seq::<char>::empty());
    assert(scanned(read6).0 =~= seq!["ocpp"@]);
    assert("/ocpp/"@ =~= read6);
    lemma_scanned_run(read6, name);
    assert(scanned(read6).1 + name =~= name);
    assert(segments(read6 + name) =~= seq!["ocpp"@, name]);
}

} // verus!
