//! Classification of inbound frames and the per-connection session.
use vstd::prelude::*;
use vstd::string::StringExecFns;
use crate::message::{
    Greeting, Ping, Pong, SongInfo, SongView, Welcome, int_member, json_int_member,
    json_quoted, json_str_member, quoted, str_member,
};
use crate::text::{chars_of, decimal_text, i64_text_value, parse_i64, push_decimal, starts_with_chars, str_is};

verus! {

#[verifier::external_type_specification]
#[verifier::external_body]
pub struct ExIoError(std::io::Error);

/// Whether the top-level `message` member of the JSON text `doc` is `word`.
pub open spec fn message_is(doc: Seq<char>, word: Seq<char>) -> bool {
    json_str_member(doc, "message"@) == Some(word)
}

/// A keep-alive probe: exactly the word `ping`.
pub open spec fn ping_of(doc: Seq<char>) -> bool {
    doc == "ping"@
}

/// The identity in a JSON welcome: an object whose `message` is `welcome`,
/// with an integer member `id`.
pub open spec fn welcome_json_of(doc: Seq<char>) -> Option<i64> {
    if message_is(doc, "welcome"@) {
        json_int_member(doc, "id"@)
    } else {
        None
    }
}

/// The identity in a text welcome: `welcome:` followed by a signed decimal
/// integer that fits in an `i64`.
pub open spec fn welcome_text_of(doc: Seq<char>) -> Option<i64> {
    let p = "welcome:"@;
    if p.len() <= doc.len() && doc.subrange(0, p.len() as int) == p {
        i64_text_value(doc.subrange(p.len() as int, doc.len() as int))
    } else {
        None
    }
}

/// The song announced by `doc`: a JSON object with string members `title`,
/// `artist`, `album`, `albumart` and an integer `remaining` that fits in a `u32`.
pub open spec fn song_of(doc: Seq<char>) -> Option<SongView> {
    match (
        json_str_member(doc, "title"@),
        json_str_member(doc, "artist"@),
        json_str_member(doc, "album"@),
        json_str_member(doc, "albumart"@),
        json_int_member(doc, "remaining"@),
    ) {
        (Some(title), Some(artist), Some(album), Some(albumart), Some(n)) => {
            if 0 <= n <= u32::MAX {
                Some(SongView { title, artist, album, albumart, remaining: n as u32 })
            } else {
                None
            }
        },
        _ => None,
    }
}

/// The identity in a welcome: either the text `welcome:` followed by a
/// signed decimal integer, or a JSON object whose `message` is `welcome`
/// with an integer member `id`.
pub open spec fn welcome_of(doc: Seq<char>) -> Option<i64> {
    if welcome_text_of(doc) is Some {
        welcome_text_of(doc)
    } else {
        welcome_json_of(doc)
    }
}

/// The identity in a JSON reply whose `message` is `pong`.
pub open spec fn pong_of(doc: Seq<char>) -> Option<i64> {
    if message_is(doc, "pong"@) {
        json_int_member(doc, "id"@)
    } else {
        None
    }
}

/// What a frame means to the client.
pub enum Event {
    Unknown(Seq<char>),
    Welcome(i64),
    SongInfo(SongView),
    Ping,
}

/// Classification in a fixed order: a probe, then a song, then a welcome;
/// anything else is kept as it came.
pub open spec fn classify(doc: Seq<char>) -> Event {
    if ping_of(doc) {
        Event::Ping
    } else if song_of(doc) is Some {
        Event::SongInfo(song_of(doc)->0)
    } else if welcome_of(doc) is Some {
        Event::Welcome(welcome_of(doc)->0)
    } else {
        Event::Unknown(doc)
    }
}

/// The reply to a probe, for the connection identity `id`.
pub open spec fn reply_text(id: i64) -> Seq<char> {
    "pong:"@ + decimal_text(id as int)
}

/// JSON text of a greeting.
pub open spec fn greeting_json(message: Seq<char>) -> Seq<char> {
    "{\"message\":"@ + json_quoted(message) + "}"@
}

/// JSON text of a pong.
pub open spec fn pong_json(message: Seq<char>, id: i64) -> Seq<char> {
    "{\"message\":"@ + json_quoted(message) + ",\"id\":"@ + decimal_text(id as int) + "}"@
}

impl SongInfo {
    /// Reads a song announcement from JSON text.
    pub fn from(data: &str) -> (r: Result<SongInfo, ()>)
        ensures
            match r {
                Ok(s) => song_of(data@) == Some(s@),
                Err(_) => song_of(data@) is None,
            },
    {
        let title = str_member(data, "title");
        let artist = str_member(data, "artist");
        let album = str_member(data, "album");
        let albumart = str_member(data, "albumart");
        let remaining = int_member(data, "remaining");
        match (title, artist, album, albumart, remaining) {
            (Some(title), Some(artist), Some(album), Some(albumart), Some(n)) => {
                if 0 <= n && n <= 0xffff_ffff {
                    Ok(SongInfo { title, artist, album, albumart, remaining: n as u32 })
                } else {
                    Err(())
                }
            },
            _ => Err(()),
        }
    }
}

/// Whether the `message` member of `data` is `word`.
fn message_matches(data: &str, word: &str) -> (r: bool)
    ensures
        r == message_is(data@, word@),
{
    match str_member(data, "message") {
        Some(m) => {
            let w = chars_of(word);
            str_is(m.as_str(), w.as_slice())
        },
        None => false,
    }
}

impl Welcome {
    /// Reads a JSON welcome.
    pub fn from(data: &str) -> (r: Result<Welcome, ()>)
        ensures
            match r {
                Ok(w) => welcome_json_of(data@) == Some(w.id) && w.message@ == "welcome"@,
                Err(_) => welcome_json_of(data@) is None,
            },
    {
        if message_matches(data, "welcome") {
            match int_member(data, "id") {
                Some(id) => Ok(Welcome { message: "welcome".to_owned(), id }),
                None => Err(()),
            }
        } else {
            Err(())
        }
    }
}

/// Reads a text welcome: `welcome:` and the identity in decimal.
pub fn welcome_from_text(data: &str) -> (r: Option<Welcome>)
    ensures
        match r {
            Some(w) => welcome_text_of(data@) == Some(w.id) && w.message@ == "welcome"@,
            None => welcome_text_of(data@) is None,
        },
{
    let cs = chars_of(data);
    let prefix = chars_of("welcome:");
    if starts_with_chars(cs.as_slice(), prefix.as_slice()) {
        match parse_i64(cs.as_slice(), prefix.len()) {
            Some(id) => Some(Welcome { message: "welcome".to_owned(), id }),
            None => None,
        }
    } else {
        None
    }
}

impl Greeting {
    /// The greeting a client opens a connection with.
    pub fn default() -> (r: Greeting)
        ensures
            r.message@ == "grInitialConnection"@,
    {
        Greeting { message: "grInitialConnection".to_owned() }
    }

    /// Reads a greeting: a JSON object whose `message` is `greeting`.
    pub fn from(data: &str) -> (r: Result<Greeting, ()>)
        ensures
            match r {
                Ok(g) => message_is(data@, "greeting"@) && g.message@ == "greeting"@,
                Err(_) => !message_is(data@, "greeting"@),
            },
    {
        if message_matches(data, "greeting") {
            Ok(Greeting { message: "greeting".to_owned() })
        } else {
            Err(())
        }
    }

    /// The greeting as JSON text.
    pub fn to_json(&self) -> (r: String)
        ensures
            r@ == greeting_json(self.message@),
    {
        let mut out = "{\"message\":".to_owned();
        let q = quoted(self.message.as_str());
        out.append(q.as_str());
        out.append("}");
        out
    }
}

impl Ping {
    /// Reads a JSON keep-alive probe: an object whose `message` is `ping`.
    pub fn from(data: &str) -> (r: Result<Ping, ()>)
        ensures
            match r {
                Ok(p) => message_is(data@, "ping"@) && p.message@ == "ping"@,
                Err(_) => !message_is(data@, "ping"@),
            },
    {
        if message_matches(data, "ping") {
            Ok(Ping { message: "ping".to_owned() })
        } else {
            Err(())
        }
    }
}

impl Pong {
    /// The reply for the connection identity `id`.
    pub fn default(id: i64) -> (r: Pong)
        ensures
            r.message@ == "pong"@,
            r.id == id,
    {
        Pong { message: "pong".to_owned(), id }
    }

    /// Reads a reply: a JSON object whose `message` is `pong`, with an
    /// integer `id`.
    pub fn from(data: &str) -> (r: Result<Pong, ()>)
        ensures
            match r {
                Ok(p) => pong_of(data@) == Some(p.id) && p.message@ == "pong"@,
                Err(_) => pong_of(data@) is None,
            },
    {
        if message_matches(data, "pong") {
            match int_member(data, "id") {
                Some(id) => Ok(Pong { message: "pong".to_owned(), id }),
                None => Err(()),
            }
        } else {
            Err(())
        }
    }

    /// The reply as JSON text.
    pub fn to_json(&self) -> (r: String)
        ensures
            r@ == pong_json(self.message@, self.id),
    {
        let mut out = "{\"message\":".to_owned();
        let q = quoted(self.message.as_str());
        out.append(q.as_str());
        out.append(",\"id\":");
        push_decimal(&mut out, self.id);
        out.append("}");
        out
    }
}

/// A classified inbound frame.
#[derive(Clone, Debug, PartialEq, Eq)]
pub enum GensokyoMessage {
    MessageUnknown(String),
    MessageWelcome(Welcome),
    MessageSongInfo(SongInfo),
    MessagePing(Ping),
}

impl View for GensokyoMessage {
    type V = Event;

    open spec fn view(&self) -> Event {
        match self {
            GensokyoMessage::MessageUnknown(s) => Event::Unknown(s@),
            GensokyoMessage::MessageWelcome(w) => Event::Welcome(w.id),
            GensokyoMessage::MessageSongInfo(s) => Event::SongInfo(s@),
            GensokyoMessage::MessagePing(_) => Event::Ping,
        }
    }
}

impl GensokyoMessage {
    /// Classifies a text frame; every frame gets a classification.
    pub fn from(data: &str) -> (r: Result<GensokyoMessage, std::io::Error>)
        ensures
            r matches Ok(m) && m@ == classify(data@),
            r matches Ok(GensokyoMessage::MessagePing(p)) ==> p.message@ == "ping"@,
            r matches Ok(GensokyoMessage::MessageWelcome(w)) ==> w.message@ == "welcome"@,
    {
        let word = chars_of("ping");
        if str_is(data, word.as_slice()) {
            return Ok(GensokyoMessage::MessagePing(Ping { message: "ping".to_owned() }));
        }
        if let Ok(songinfo) = SongInfo::from(data) {
            return Ok(GensokyoMessage::MessageSongInfo(songinfo));
        }
        if let Some(welcome) = welcome_from_text(data) {
            return Ok(GensokyoMessage::MessageWelcome(welcome));
        }
        if let Ok(welcome) = Welcome::from(data) {
            return Ok(GensokyoMessage::MessageWelcome(welcome));
        }
        Ok(GensokyoMessage::MessageUnknown(data.to_owned()))
    }
}

/// Relies on `std::time::SystemTime::now`, chrono's conversion of it into a
/// `DateTime<Utc>` (which also takes clocks set before 1970) and
/// `DateTime::timestamp_millis`: the current time in milliseconds since the
/// Unix epoch. Nothing is assumed of the value.
#[verifier::external_body]
fn now_millis() -> (r: i64) {
    chrono::DateTime::<chrono::Utc>::from(std::time::SystemTime::now()).timestamp_millis()
}

/// State of one connection: the identity the server gave it and when it began.
pub struct Session {
    id: i64,
    start_time: i64,
}

impl Session {
    /// The identity that replies carry.
    pub closed spec fn identity(&self) -> i64 {
        self.id
    }

    /// When the session began, in milliseconds since the Unix epoch.
    pub closed spec fn started(&self) -> i64 {
        self.start_time
    }

    /// A session begun at `now` (milliseconds since the Unix epoch) that has
    /// no identity yet (it reads as 0).
    pub fn started_at(now: i64) -> (r: Session)
        ensures
            r.identity() == 0,
            r.started() == now,
    {
        Session { id: 0, start_time: now }
    }

    /// A session begun at `now` that takes its identity from a welcome.
    pub fn welcomed_at(welcome: Welcome, now: i64) -> (r: Session)
        ensures
            r.identity() == welcome.id,
            r.started() == now,
    {
        Session { id: welcome.id, start_time: now }
    }

    /// A session begun now, with no identity yet: `started_at` with the
    /// clock's reading.
    pub fn new() -> (r: Session)
        ensures
            r.identity() == 0,
    {
        let now = now_millis();
        Session::started_at(now)
    }

    /// A session begun now that takes its identity from a welcome:
    /// `welcomed_at` with the clock's reading.
    pub fn from_welcome(welcome: Welcome) -> (r: Session)
        ensures
            r.identity() == welcome.id,
    {
        let now = now_millis();
        Session::welcomed_at(welcome, now)
    }

    /// Replaces the identity; the last call wins.
    pub fn set_id(&mut self, id: i64)
        ensures
            final(self).identity() == identity_set(old(self).identity(), id),
            final(self).started() == old(self).started(),
    {
        self.id = id
    }

    /// The reply frame to a probe: `pong:` and the identity in decimal.
    pub fn gen_pong(&self) -> (r: String)
        ensures
            r@ == reply_text(self.identity()),
    {
        let mut out = "pong:".to_owned();
        push_decimal(&mut out, self.id);
        out
    }

    /// The identity that replies carry.
    pub fn id(&self) -> (r: i64)
        ensures
            r == self.identity(),
    {
        self.id
    }

    /// When the session began, in milliseconds since the Unix epoch.
    pub fn start_time(&self) -> (r: i64)
        ensures
            r == self.started(),
    {
        self.start_time
    }
}

/// The identity left after `set_id` was called with each of `ids` in turn,
/// starting from `start`.
pub open spec fn identity_after(start: i64, ids: Seq<i64>) -> i64
    decreases ids.len(),
{
    if ids.len() == 0 {
        start
    } else {
        identity_set(identity_after(start, ids.drop_last()), ids.last())
    }
}

/// The identity after `set_id(id)` on a session whose identity was `_before`.
pub open spec fn identity_set(_before: i64, id: i64) -> i64 {
    id
}

/// The bare word `ping` is classified as a probe and as nothing else.
pub proof fn lemma_ping_word_is_ping(doc: Seq<char>)
    requires
        doc == "ping"@,
    ensures
        classify(doc) == Event::Ping,
{
}

/// A well-formed song announcement is classified as that song, with every
/// member as it was written. (Such a payload is a JSON object, so it is never
/// the bare probe word; that case is left out.)
pub proof fn lemma_song_payload_is_song(doc: Seq<char>)
    requires
        song_of(doc) is Some,
        doc != "ping"@,
    ensures
        classify(doc) == Event::SongInfo(song_of(doc)->0),
{
}

/// Text that no format recognises is classified as unknown, unchanged.
pub proof fn lemma_unrecognized_is_unknown(doc: Seq<char>)
    requires
        doc != "ping"@,
        song_of(doc) is None,
        welcome_of(doc) is None,
    ensures
        classify(doc) == Event::Unknown(doc),
{
}

/// After any non-empty run of `set_id` calls, the reply carries the last
/// identity set.
pub proof fn lemma_reply_carries_last_identity(start: i64, ids: Seq<i64>)
    requires
        ids.len() > 0,
    ensures
        identity_after(start, ids) == ids.last(),
        reply_text(identity_after(start, ids)) == reply_text(ids.last()),
{
}

} // verus!
