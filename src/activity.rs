//! The activity published for one status response.
use vstd::prelude::*;
use crate::protocol::{
    field, status_of,    file_stem, parse, parse_spec, stem_of, status_name, PlaybackStatus, ProtocolError,
    RecordModel, StatusRecord,
};

verus! {

/// Presentation settings fixed at start-up.
#[derive(Clone, Debug)]
pub struct PresenceConfig {
    /// Token placed, with a space on each side, between artist and title.
    pub separator: String,
    /// Decoration appended to a non-empty state line.
    pub suffix: String,
}

/// What the sink is asked to show.
#[derive(Clone, Debug, PartialEq, Eq)]
pub struct ActivityPayload {
    pub details: String,
    pub state: String,
    /// Whether the artwork and its captions go with the activity: for every
    /// status but stopped.
    pub decorated: bool,
    /// Unix time, in seconds, at which the track ends.
    pub end_timestamp: Option<u64>,
}

pub struct PayloadModel {
    pub details: Seq<char>,
    pub state: Seq<char>,
    pub decorated: bool,
    pub end_timestamp: Option<u64>,
}

impl View for ActivityPayload {
    type V = PayloadModel;

    open spec fn view(&self) -> PayloadModel {
        PayloadModel {
            details: self.details@,
            state: self.state@,
            decorated: self.decorated,
            end_timestamp: self.end_timestamp,
        }
    }
}

/// The state line: empty when stopped; `<artist> <sep> <title>` when both
/// tags are there; else the stem of the file name, or empty when there is
/// none.
pub open spec fn state_line(r: RecordModel, sep: Seq<char>, suffix: Seq<char>) -> Seq<char> {
    if r.status == PlaybackStatus::Stopped {
        Seq::empty()
    } else if r.artist is Some && r.title is Some {
        r.artist->0 + " "@ + sep + " "@ + r.title->0 + suffix
    } else {
        match r.file {
            Some(f) => if file_stem(f).len() > 0 {
                file_stem(f) + suffix
            } else {
                Seq::empty()
            },
            None => Seq::empty(),
        }
    }
}

/// End of the track: `now + duration - position`, taken modulo 2^64.
pub open spec fn end_time(now: u64, duration: u64, position: u64) -> u64 {
    let t = now + duration - position;
    if t > u64::MAX {
        (t - 0x1_0000_0000_0000_0000) as u64
    } else if t < 0 {
        (t + 0x1_0000_0000_0000_0000) as u64
    } else {
        t as u64
    }
}

/// The payload for a record at time `now`.
pub open spec fn build_spec(r: RecordModel, now: u64, sep: Seq<char>, suffix: Seq<char>) -> PayloadModel {
    PayloadModel {
        details: status_name(r.status),
        state: state_line(r, sep, suffix),
        decorated: r.status != PlaybackStatus::Stopped,
        end_timestamp: if r.status == PlaybackStatus::Playing {
            Some(end_time(now, r.duration->0, r.position->0))
        } else {
            None
        },
    }
}

/// The payload for a raw response block at time `now`.
pub open spec fn payload_of(s: Seq<char>, now: u64, sep: Seq<char>, suffix: Seq<char>) -> Result<PayloadModel, ProtocolError> {
    match parse_spec(s) {
        Ok(r) => Ok(build_spec(r, now, sep, suffix)),
        Err(e) => Err(e),
    }
}

fn track_end(now: u64, duration: u64, position: u64) -> (r: u64)
    ensures
        r == end_time(now, duration, position),
{
    now.wrapping_add(duration).wrapping_sub(position)
}

/// Builds the payload for a parsed record.
pub fn build(record: &StatusRecord, now: u64, config: &PresenceConfig) -> (r: ActivityPayload)
    requires
        record.well_formed(),
    ensures
        r@ == build_spec(record@, now, config.separator@, config.suffix@),
{
    let details = record.status.name();
    if record.status == PlaybackStatus::Stopped {
        return ActivityPayload { details, state: String::new(), decorated: false, end_timestamp: None };
    }
    let state = match (&record.artist, &record.title) {
        (Some(a), Some(t)) => a.clone().concat(" ").concat(config.separator.as_str()).concat(
            " ",
        ).concat(t.as_str()).concat(config.suffix.as_str()),
        _ => match &record.file {
            Some(f) => {
                let stem = stem_of(f.as_str());
                if stem.as_str().unicode_len() > 0 {
                    stem.concat(config.suffix.as_str())
                } else {
                    String::new()
                }
            },
            None => String::new(),
        },
    };
    let end_timestamp = match (record.duration, record.position) {
        (Some(d), Some(p)) => Some(track_end(now, d, p)),
        _ => None,
    };
    ActivityPayload { details, state, decorated: true, end_timestamp }
}

/// Parses a response block and builds its payload.
pub fn parse_and_build(raw: &str, now: u64, config: &PresenceConfig) -> (r: Result<ActivityPayload, ProtocolError>)
    ensures
        match r {
            Ok(p) => payload_of(raw@, now, config.separator@, config.suffix@) == Ok::<PayloadModel, ProtocolError>(p@),
            Err(e) => payload_of(raw@, now, config.separator@, config.suffix@) == Err::<PayloadModel, ProtocolError>(e),
        },
{
    match parse(raw) {
        Ok(rec) => Ok(build(&rec, now, config)),
        Err(e) => Err(e),
    }
}

/// Parsing a block and building its payload depends on the block and the
/// time alone: equal inputs give equal payloads or equal errors.
pub proof fn lemma_payload_deterministic(
    a: Seq<char>,
    b: Seq<char>,
    now: u64,
    sep: Seq<char>,
    suffix: Seq<char>,
)
    requires
        a == b,
    ensures
        payload_of(a, now, sep, suffix) == payload_of(b, now, sep, suffix),
{
}

proof fn lemma_status_tokens()
    ensures
        status_of("playing"@) == Some(PlaybackStatus::Playing),
        status_of("paused"@) == Some(PlaybackStatus::Paused),
        status_of("stopped"@) == Some(PlaybackStatus::Stopped),
{
    reveal_strlit("playing");
    reveal_strlit("paused");
    reveal_strlit("stopped");
    assert("paused"@ != "playing"@) by {
        assert("paused"@.len() != "playing"@.len());
    }
    assert("stopped"@ != "playing"@) by {
        assert("stopped"@[2] != "playing"@[2]);
    }
    assert("stopped"@ != "paused"@) by {
        assert("stopped"@.len() != "paused"@.len());
    }
}

/// A stopped player yields an empty state line and no end time, whatever
/// else the block holds, malformed fields included.
pub proof fn lemma_stopped_shows_nothing(s: Seq<char>, now: u64, sep: Seq<char>, suffix: Seq<char>)
    requires
        field(s, "status"@) == Some("stopped"@),
    ensures
        payload_of(s, now, sep, suffix) is Ok,
        payload_of(s, now, sep, suffix)->Ok_0.state.len() == 0,
        payload_of(s, now, sep, suffix)->Ok_0.end_timestamp is None,
{
    lemma_status_tokens();
}

/// When a playing or paused block names both artist and title, the state
/// line is `<artist> <sep> <title>` followed by the suffix, whether or not a
/// file is named too.
pub proof fn lemma_tags_take_precedence(
    s: Seq<char>,
    now: u64,
    sep: Seq<char>,
    suffix: Seq<char>,
    artist: Seq<char>,
    title: Seq<char>,
)
    requires
        field(s, "tag artist"@) == Some(artist),
        field(s, "tag title"@) == Some(title),
        payload_of(s, now, sep, suffix) is Ok,
        field(s, "status"@) != Some("stopped"@),
    ensures
        payload_of(s, now, sep, suffix)->Ok_0.state == artist + " "@ + sep + " "@ + title + suffix,
{
    lemma_status_tokens();
}

} // verus!
