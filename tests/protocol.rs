use cmus_presence::{
    find_field, is_block_terminator, parse, parse_number, stem_of, PlaybackStatus, ProtocolError,
};

#[test]
fn parses_playing_block() {
    let raw = "status playing\nfile /music/A/01 Song.flac\nduration 200\nposition 50\ntag artist Some Artist\ntag title Some Title\n\n";
    let rec = parse(raw).unwrap();
    assert_eq!(rec.status, PlaybackStatus::Playing);
    assert_eq!(rec.artist.as_deref(), Some("Some Artist"));
    assert_eq!(rec.title.as_deref(), Some("Some Title"));
    assert_eq!(rec.file.as_deref(), Some("/music/A/01 Song.flac"));
    assert_eq!(rec.duration, Some(200));
    assert_eq!(rec.position, Some(50));
}

#[test]
fn paused_block_has_no_timing() {
    let rec = parse("status paused\nduration 10\nposition 3\n\n").unwrap();
    assert_eq!(rec.status, PlaybackStatus::Paused);
    assert_eq!(rec.duration, None);
    assert_eq!(rec.position, None);
}

#[test]
fn stopped_block_ignores_malformed_fields() {
    let rec = parse("status stopped\nduration abc\nposition -1\ntag artist A\n\n").unwrap();
    assert_eq!(rec.status, PlaybackStatus::Stopped);
    assert_eq!(rec.artist, None);
    assert_eq!(rec.duration, None);
}

#[test]
fn unknown_status_is_rejected() {
    assert_eq!(parse("status buffering\n\n"), Err(ProtocolError::UnknownStatus));
    assert_eq!(parse("status Playing\n\n"), Err(ProtocolError::UnknownStatus));
    assert_eq!(PlaybackStatus::parse_token("buffering"), Err(ProtocolError::UnknownStatus));
    assert_eq!(PlaybackStatus::parse_token("paused"), Ok(PlaybackStatus::Paused));
}

#[test]
fn missing_fields_are_reported() {
    assert_eq!(parse("file /a/b.mp3\n\n"), Err(ProtocolError::MissingStatus));
    assert_eq!(parse("status playing\nposition 3\n\n"), Err(ProtocolError::MissingDuration));
    assert_eq!(parse("status playing\nduration 3\n\n"), Err(ProtocolError::MissingPosition));
}

#[test]
fn malformed_numbers_are_reported() {
    assert_eq!(
        parse("status playing\nduration 3x\nposition 1\n\n"),
        Err(ProtocolError::MalformedNumber)
    );
    assert_eq!(
        parse("status playing\nduration 3\nposition 18446744073709551616\n\n"),
        Err(ProtocolError::MalformedNumber)
    );
}

#[test]
fn numbers_parse_exactly() {
    let digits = |s: &str| s.chars().collect::<Vec<char>>();
    assert_eq!(parse_number(&digits("0")), Some(0));
    assert_eq!(parse_number(&digits("200")), Some(200));
    assert_eq!(parse_number(&digits("18446744073709551615")), Some(u64::MAX));
    assert_eq!(parse_number(&digits("18446744073709551616")), None);
    assert_eq!(parse_number(&digits("")), None);
    assert_eq!(parse_number(&digits("-5")), None);
    assert_eq!(parse_number(&digits("1 2")), None);
}

#[test]
fn field_value_is_rest_of_line_and_first_wins() {
    let raw = "tag artist First One\ntag artist Second\ntag albumartist X\n\n";
    let cs: Vec<char> = raw.chars().collect();
    assert_eq!(find_field(raw, &cs, "tag artist").as_deref(), Some("First One"));
    assert_eq!(find_field(raw, &cs, "tag album"), None);
    let empty = "tag title \n\n";
    let cs: Vec<char> = empty.chars().collect();
    assert_eq!(find_field(empty, &cs, "tag title"), None);
}

#[test]
fn nothing_after_terminator_is_read() {
    let block = "status paused\n\n";
    let with_rest = "status paused\n\nstatus playing\ntag artist Later\n";
    assert_eq!(parse(block), parse(with_rest));
    assert_eq!(parse(with_rest).unwrap().artist, None);
    assert_eq!(parse("\nstatus playing\n"), Err(ProtocolError::MissingStatus));
}

#[test]
fn terminator_line_detection() {
    assert!(is_block_terminator("\n"));
    assert!(!is_block_terminator("status playing\n"));
    assert!(!is_block_terminator(""));
}

#[test]
fn file_stem_extraction() {
    assert_eq!(stem_of("/music/Artist/01 Song.flac"), "01 Song");
    assert_eq!(stem_of("noext"), "noext");
    assert_eq!(stem_of("/music/noext"), "noext");
    assert_eq!(stem_of("/music/a.b.c"), "a.b");
    assert_eq!(stem_of("/music/.hidden"), ".hidden");
    assert_eq!(stem_of("/music/"), "");
    assert_eq!(stem_of("/dir.d/track"), "track");
}

#[test]
fn status_names_are_distinct() {
    assert_eq!(PlaybackStatus::Playing.name(), "Playing");
    assert_eq!(PlaybackStatus::Paused.name(), "Paused");
    assert_eq!(PlaybackStatus::Stopped.name(), "Stopped");
}
