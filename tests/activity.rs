use cmus_presence::{build, parse, parse_and_build, ActivityPayload, PresenceConfig};

fn config(sep: &str, suffix: &str) -> PresenceConfig {
    PresenceConfig { separator: sep.to_string(), suffix: suffix.to_string() }
}

#[test]
fn end_timestamp_is_now_plus_remaining() {
    let p = parse_and_build("status playing\nduration 200\nposition 50\n\n", 1000, &config("|", ""))
        .unwrap();
    assert_eq!(p.end_timestamp, Some(1150));
    assert_eq!(p.details, "Playing");
}

#[test]
fn end_timestamp_wraps() {
    let p = parse_and_build("status playing\nduration 0\nposition 5\n\n", 0, &config("|", "")).unwrap();
    assert_eq!(p.end_timestamp, Some(u64::MAX - 4));
}

#[test]
fn stopped_shows_nothing() {
    let raw = "status stopped\nduration abc\ntag artist A\ntag title T\nfile /x/y.mp3\n\n";
    let p = parse_and_build(raw, 1000, &config("|", "   ")).unwrap();
    assert_eq!(
        p,
        ActivityPayload { details: "Stopped".to_string(), state: String::new(), decorated: false, end_timestamp: None }
    );
}

#[test]
fn tags_win_over_file_name() {
    let raw = "status paused\nfile /m/Other/02 Else.mp3\ntag artist Artist\ntag title Title\n\n";
    let p = parse_and_build(raw, 1000, &config("|", "")).unwrap();
    assert_eq!(p.state, "Artist | Title");
    assert_eq!(p.details, "Paused");
    assert!(p.decorated);
    assert_eq!(p.end_timestamp, None);
    let p = parse_and_build(raw, 1000, &config("-", "   ")).unwrap();
    assert_eq!(p.state, "Artist - Title   ");
}

#[test]
fn file_name_fallback() {
    let raw = "status playing\nfile /music/Artist/01 Song.flac\ntag artist Only Artist\nduration 10\nposition 0\n\n";
    let p = parse_and_build(raw, 5, &config("|", "!")).unwrap();
    assert_eq!(p.state, "01 Song!");
    assert_eq!(p.end_timestamp, Some(15));
    let p = parse_and_build("status paused\nfile /music/\n\n", 5, &config("|", "!")).unwrap();
    assert_eq!(p.state, "");
    let p = parse_and_build("status paused\nfile noext\n\n", 5, &config("|", "")).unwrap();
    assert_eq!(p.state, "noext");
    let p = parse_and_build("status paused\n\n", 5, &config("|", "!")).unwrap();
    assert_eq!(p.state, "");
}

#[test]
fn same_input_same_payload() {
    let raw = "status playing\ntag artist A\ntag title T\nduration 9\nposition 2\n\n";
    let c = config("|", " ");
    assert_eq!(parse_and_build(raw, 77, &c), parse_and_build(raw, 77, &c));
}

#[test]
fn build_matches_parse_and_build() {
    let raw = "status playing\ntag artist A\ntag title T\nduration 9\nposition 2\n\n";
    let c = config("|", "");
    let rec = parse(raw).unwrap();
    assert_eq!(build(&rec, 100, &c), parse_and_build(raw, 100, &c).unwrap());
    assert_eq!(build(&rec, 100, &c).end_timestamp, Some(107));
}
