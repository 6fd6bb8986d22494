//! Messages of the feed protocol and the JSON lookups they are read with.
use vstd::prelude::*;

verus! {

/// The `title`, `artist`, `album`, `albumart` and `remaining` members of a
/// song announcement.
pub struct SongView {
    pub title: Seq<char>,
    pub artist: Seq<char>,
    pub album: Seq<char>,
    pub albumart: Seq<char>,
    pub remaining: u32,
}

/// "Now playing" announcement: what plays and how many seconds are left.
#[derive(Clone, Debug, PartialEq, Eq)]
pub struct SongInfo {
    pub title: String,
    pub artist: String,
    pub album: String,
    pub albumart: String,
    pub remaining: u32,
}

impl View for SongInfo {
    type V = SongView;

    open spec fn view(&self) -> SongView {
        SongView {
            title: self.title@,
            artist: self.artist@,
            album: self.album@,
            albumart: self.albumart@,
            remaining: self.remaining,
        }
    }
}

/// The server's welcome, carrying the identity of this connection.
#[derive(Clone, Debug, PartialEq, Eq)]
pub struct Welcome {
    pub message: String,
    pub id: i64,
}

/// The frame a client sends first on a new connection.
#[derive(Clone, Debug, PartialEq, Eq)]
pub struct Greeting {
    pub message: String,
}

/// The server's keep-alive probe.
#[derive(Clone, Debug, PartialEq, Eq)]
pub struct Ping {
    pub message: String,
}

/// The client's answer to a keep-alive probe.
#[derive(Clone, Debug, PartialEq, Eq)]
pub struct Pong {
    pub message: String,
    pub id: i64,
}

/// The string member `key` of the JSON object written in `doc`, if `doc`
/// is a JSON document whose top level has such a member holding a string.
pub uninterp spec fn json_str_member(doc: Seq<char>, key: Seq<char>) -> Option<Seq<char>>;

/// The integer member `key` of the JSON object written in `doc`, if `doc`
/// is a JSON document whose top level has such a member holding an integer
/// that fits in an `i64`.
pub uninterp spec fn json_int_member(doc: Seq<char>, key: Seq<char>) -> Option<i64>;

/// The JSON string literal (quotes and escapes) that writes `s`.
pub uninterp spec fn json_quoted(s: Seq<char>) -> Seq<char>;

/// Relies on `serde_json::from_str` into a `serde_json::Value`, then
/// `Value::get` and `Value::as_str`: the string held by a top-level member.
#[verifier::external_body]
pub(crate) fn str_member(doc: &str, key: &str) -> (r: Option<String>)
    ensures
        match r {
            Some(v) => json_str_member(doc@, key@) == Some(v@),
            None => json_str_member(doc@, key@) is None,
        },
{
    let value = serde_json::from_str::<serde_json::Value>(doc).ok()?;
    value.get(key)?.as_str().map(String::from)
}

/// Relies on `serde_json::from_str` into a `serde_json::Value`, then
/// `Value::get` and `Value::as_i64`: the integer held by a top-level member.
#[verifier::external_body]
pub(crate) fn int_member(doc: &str, key: &str) -> (r: Option<i64>)
    ensures
        r == json_int_member(doc@, key@),
{
    let value = serde_json::from_str::<serde_json::Value>(doc).ok()?;
    value.get(key)?.as_i64()
}

/// Relies on `serde_json::Value::String` and its `to_string`: the JSON
/// literal that writes `s`.
#[verifier::external_body]
pub(crate) fn quoted(s: &str) -> (r: String)
    ensures
        r@ == json_quoted(s@),
{
    serde_json::Value::String(s.to_owned()).to_string()
}

} // verus!
