use gensokyoradio::add;
use gensokyoradio::message::{Greeting, Ping, Pong, SongInfo, Welcome};
use gensokyoradio::session::{welcome_from_text, GensokyoMessage, Session};

fn classify(text: &str) -> GensokyoMessage {
    GensokyoMessage::from(text).unwrap()
}

#[test]
fn it_works() {
    let result = add(2, 2);
    assert_eq!(result, 4);
}

#[test]
fn bare_ping_is_a_probe() {
    assert!(matches!(classify("ping"), GensokyoMessage::MessagePing(_)));
}

#[test]
fn json_ping_is_not_a_probe_to_the_classifier() {
    let text = "{\"message\":\"ping\"}";
    assert_eq!(classify(text), GensokyoMessage::MessageUnknown(text.to_string()));
}

#[test]
fn song_payload_with_ping_message_is_a_song() {
    let text = "{\"message\":\"ping\",\"title\":\"t\",\"artist\":\"a\",\"album\":\"b\",\"albumart\":\"u\",\"remaining\":3}";
    assert!(matches!(classify(text), GensokyoMessage::MessageSongInfo(_)));
}

#[test]
fn ping_with_other_case_is_unknown() {
    assert_eq!(classify("PING"), GensokyoMessage::MessageUnknown("PING".to_string()));
    assert_eq!(classify("ping "), GensokyoMessage::MessageUnknown("ping ".to_string()));
}

#[test]
fn song_payload_keeps_every_member() {
    let text = "{\"title\":\"Bad Apple!!\",\"artist\":\"Alstroemeria Records\",\"album\":\"Lovelight\",\"albumart\":\"https://host/a/b.jpg\",\"remaining\":215}";
    let expected = SongInfo {
        title: "Bad Apple!!".to_string(),
        artist: "Alstroemeria Records".to_string(),
        album: "Lovelight".to_string(),
        albumart: "https://host/a/b.jpg".to_string(),
        remaining: 215,
    };
    assert_eq!(classify(text), GensokyoMessage::MessageSongInfo(expected.clone()));
    assert_eq!(SongInfo::from(text), Ok(expected));
}

#[test]
fn song_payload_with_escapes_is_read_verbatim() {
    let text = "{\"title\":\"A \\\"quoted\\\" \\u00e9\",\"artist\":\"x\",\"album\":\"\",\"albumart\":\"u\",\"remaining\":0}";
    let song = SongInfo::from(text).unwrap();
    assert_eq!(song.title, "A \"quoted\" \u{e9}");
    assert_eq!(song.album, "");
    assert_eq!(song.remaining, 0);
}

#[test]
fn song_payload_with_missing_or_bad_member_is_not_a_song() {
    let missing = "{\"title\":\"t\",\"artist\":\"a\",\"album\":\"b\",\"remaining\":3}";
    assert!(SongInfo::from(missing).is_err());
    assert_eq!(classify(missing), GensokyoMessage::MessageUnknown(missing.to_string()));
    let negative = "{\"title\":\"t\",\"artist\":\"a\",\"album\":\"b\",\"albumart\":\"u\",\"remaining\":-1}";
    assert!(SongInfo::from(negative).is_err());
    let wrong_type = "{\"title\":1,\"artist\":\"a\",\"album\":\"b\",\"albumart\":\"u\",\"remaining\":3}";
    assert!(SongInfo::from(wrong_type).is_err());
}

#[test]
fn malformed_text_is_unknown_and_unchanged() {
    for text in ["", "{\"title\":", "hello", "welcome:", "welcome:abc", "[1,2,3]"] {
        assert_eq!(classify(text), GensokyoMessage::MessageUnknown(text.to_string()));
    }
}

#[test]
fn welcome_text_form_carries_identity() {
    assert_eq!(
        classify("welcome:42"),
        GensokyoMessage::MessageWelcome(Welcome { message: "welcome".to_string(), id: 42 })
    );
    assert_eq!(welcome_from_text("welcome:-7").unwrap().id, -7);
    assert_eq!(welcome_from_text("welcome:+7").unwrap().id, 7);
    assert!(Welcome::from("welcome:42").is_err());
}

#[test]
fn welcome_text_form_limits() {
    assert_eq!(welcome_from_text("welcome:9223372036854775807").unwrap().id, i64::MAX);
    assert_eq!(welcome_from_text("welcome:-9223372036854775808").unwrap().id, i64::MIN);
    assert!(welcome_from_text("welcome:9223372036854775808").is_none());
    assert!(welcome_from_text("welcome:99999999999999999999999").is_none());
    assert!(welcome_from_text("welcome:-").is_none());
    assert!(welcome_from_text("{\"message\":\"welcome\",\"id\":1}").is_none());
}

#[test]
fn welcome_json_form_carries_identity() {
    let w = Welcome::from("{\"message\":\"welcome\",\"id\":1234}").unwrap();
    assert_eq!(w.id, 1234);
    assert_eq!(w.message, "welcome");
    assert_eq!(
        classify("{\"message\":\"welcome\",\"id\":1234}"),
        GensokyoMessage::MessageWelcome(w.clone())
    );
    assert!(Welcome::from("{\"message\":\"hello\",\"id\":1234}").is_err());
    assert!(Welcome::from("{\"message\":\"welcome\"}").is_err());
}

#[test]
fn fresh_session_replies_with_zero() {
    let session = Session::new();
    assert_eq!(session.id(), 0);
    assert!(matches!(classify("ping"), GensokyoMessage::MessagePing(_)));
    assert_eq!(session.gen_pong(), "pong:0");
}

#[test]
fn welcome_then_ping_replies_with_identity() {
    let mut session = Session::new();
    match classify("welcome:42") {
        GensokyoMessage::MessageWelcome(w) => session.set_id(w.id),
        other => panic!("unexpected {:?}", other),
    }
    assert_eq!(session.id(), 42);
    assert!(matches!(classify("ping"), GensokyoMessage::MessagePing(_)));
    assert_eq!(session.gen_pong(), "pong:42");
}

#[test]
fn last_identity_set_wins() {
    let mut session = Session::new();
    let start = session.start_time();
    for id in [5, -3, 17] {
        session.set_id(id);
    }
    assert_eq!(session.gen_pong(), "pong:17");
    assert_eq!(session.start_time(), start);
    session.set_id(i64::MIN);
    assert_eq!(session.gen_pong(), "pong:-9223372036854775808");
}

#[test]
fn sessions_keep_their_start_time() {
    let s = Session::started_at(1_700_000_000_000);
    assert_eq!(s.start_time(), 1_700_000_000_000);
    assert_eq!(s.id(), 0);
    let w = Session::welcomed_at(Welcome { message: "welcome".to_string(), id: 3 }, -5);
    assert_eq!(w.start_time(), -5);
    assert_eq!(w.gen_pong(), "pong:3");
}

#[test]
fn session_from_welcome_replies_with_its_identity() {
    let session = Session::from_welcome(Welcome { message: "welcome".to_string(), id: 9 });
    assert_eq!(session.gen_pong(), "pong:9");
}

#[test]
fn greeting_is_initial_connection_json() {
    let greeting = Greeting::default();
    assert_eq!(greeting.message, "grInitialConnection");
    assert_eq!(greeting.to_json(), "{\"message\":\"grInitialConnection\"}");
    assert_eq!(Greeting::from("{\"message\":\"greeting\"}").unwrap().message, "greeting");
    assert!(Greeting::from("{\"message\":\"ping\"}").is_err());
}

#[test]
fn pong_json_round_trip() {
    let pong = Pong::default(-12);
    assert_eq!(pong.to_json(), "{\"message\":\"pong\",\"id\":-12}");
    assert_eq!(Pong::from(&pong.to_json()).unwrap(), pong);
    assert!(Pong::from("{\"message\":\"ping\",\"id\":1}").is_err());
}

#[test]
fn quoted_message_is_escaped() {
    let pong = Pong { message: "a\"b".to_string(), id: 0 };
    assert_eq!(pong.to_json(), "{\"message\":\"a\\\"b\",\"id\":0}");
}

#[test]
fn ping_parser_reads_json_only() {
    assert!(Ping::from("ping").is_err());
    assert_eq!(Ping::from("{\"message\":\"ping\"}").unwrap().message, "ping");
    assert!(Ping::from("{\"message\":\"pong\"}").is_err());
}
