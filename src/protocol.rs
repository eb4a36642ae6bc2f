//! The cmus status response: a block of `<key> <value>` lines ended by one
//! empty line.
use vstd::prelude::*;
use crate::text::{
    lemma_line_len_bound,    chars_of, last_index, last_index_exec, line_end, line_len_from, number_of, occurs_at,
    occurs_at_exec, parse_number,
};

verus! {

/// Whether the line `s[i..e]` carries the field `key`: the key, one space, and
/// a non-empty value.
pub open spec fn line_has_key(s: Seq<char>, i: int, e: int, key: Seq<char>) -> bool {
    &&& e - i > key.len() + 1
    &&& occurs_at(s, i, key)
    &&& s[i + key.len()] == ' '
}

/// Value of the first line at or after line start `i` that carries `key`,
/// looking no further than the first empty line.
pub open spec fn field_from(s: Seq<char>, i: int, key: Seq<char>) -> Option<Seq<char>>
    decreases s.len() + 1 - i
    via field_from_decreases
{
    if i < 0 || i >= s.len() {
        None
    } else {
        let e = i + line_len_from(s, i);
        if e == i {
            None
        } else if line_has_key(s, i, e, key) {
            Some(s.subrange(i + key.len() + 1, e))
        } else {
            field_from(s, e + 1, key)
        }
    }
}

#[via_fn]
proof fn field_from_decreases(s: Seq<char>, i: int, key: Seq<char>) {
    if 0 <= i < s.len() {
        lemma_line_len_bound(s, i);
    }
}

/// Value of the field `key` in the response block `s`.
pub open spec fn field(s: Seq<char>, key: Seq<char>) -> Option<Seq<char>> {
    field_from(s, 0, key)
}

/// Finds the value of the field `key` in the block `raw`, whose characters
/// are `cs`.
pub fn find_field(raw: &str, cs: &Vec<char>, key: &str) -> (r: Option<String>)
    requires
        cs@ == raw@,
    ensures
        match r {
            Some(v) => field(raw@, key@) == Some(v@),
            None => field(raw@, key@) is None,
        },
{
    let kc = chars_of(key);
    let n = cs.len();
    let mut i: usize = 0;
    while i < n
        invariant
            cs@ == raw@,
            kc@ == key@,
            n == cs@.len(),
            0 <= i <= n,
            field_from(cs@, i as int, key@) == field(cs@, key@),
        decreases n - i,
    {
        let e = line_end(cs, i);
        if e == i {
            return None;
        }
        if kc.len() < e - i - 1 && occurs_at_exec(cs, i, &kc) && cs[i + kc.len()] == ' ' {
            let v = raw.substring_char(i + kc.len() + 1, e);
            return Some(v.to_owned());
        }
        if e == n {
            assert(field_from(cs@, e + 1, key@) is None);
            return None;
        }
        i = e + 1;
    }
    None
}

/// Last path segment of `path` with its final extension removed. A segment
/// whose only dot opens it (a hidden file) keeps its whole name.
pub open spec fn file_stem(path: Seq<char>) -> Seq<char> {
    let seg = path.subrange(last_index(path, '/') + 1, path.len() as int);
    let dot = last_index(seg, '.');
    if dot > 0 {
        seg.subrange(0, dot)
    } else {
        seg
    }
}

/// Title derived from a file path: the stem of its last segment.
pub fn stem_of(path: &str) -> (r: String)
    ensures
        r@ == file_stem(path@),
{
    let cs = chars_of(path);
    let start: usize = match last_index_exec(&cs, '/') {
        Some(p) => {
            assert(p < cs.len());
            p + 1
        },
        None => 0,
    };
    let seg = path.substring_char(start, cs.len());
    let sc = chars_of(seg);
    match last_index_exec(&sc, '.') {
        Some(d) => {
            if d > 0 {
                seg.substring_char(0, d).to_owned()
            } else {
                seg.to_owned()
            }
        },
        None => seg.to_owned(),
    }
}

/// Playback state reported by the player.
#[derive(Clone, Copy, Debug, PartialEq, Eq, Structural)]
pub enum PlaybackStatus {
    Playing,
    Paused,
    Stopped,
}

/// Why a response block could not be read.
#[derive(Clone, Copy, Debug, PartialEq, Eq, Structural)]
pub enum ProtocolError {
    /// The block has no `status` line.
    MissingStatus,
    /// The `status` value is none of `playing`, `paused`, `stopped`.
    UnknownStatus,
    /// A playing track has no `duration` line.
    MissingDuration,
    /// A playing track has no `position` line.
    MissingPosition,
    /// `duration` or `position` is not a non-negative integer that fits in 64 bits.
    MalformedNumber,
}

/// The status named by a protocol token; tokens are lower case and exact.
pub open spec fn status_of(token: Seq<char>) -> Option<PlaybackStatus> {
    if token == "playing"@ {
        Some(PlaybackStatus::Playing)
    } else if token == "paused"@ {
        Some(PlaybackStatus::Paused)
    } else if token == "stopped"@ {
        Some(PlaybackStatus::Stopped)
    } else {
        None
    }
}

/// Display name of a status, the same casing for every variant.
pub open spec fn status_name(st: PlaybackStatus) -> Seq<char> {
    match st {
        PlaybackStatus::Playing => "Playing"@,
        PlaybackStatus::Paused => "Paused"@,
        PlaybackStatus::Stopped => "Stopped"@,
    }
}

fn same_chars(a: &str, b: &str) -> (r: bool)
    ensures
        r == (a@ == b@),
{
    let ac = chars_of(a);
    let bc = chars_of(b);
    if ac.len() != bc.len() {
        return false;
    }
    assert(ac@.subrange(0, ac@.len() as int) =~= ac@);
    occurs_at_exec(&ac, 0, &bc)
}

impl PlaybackStatus {
    /// Decodes a `status` value.
    pub fn parse_token(token: &str) -> (r: Result<PlaybackStatus, ProtocolError>)
        ensures
            match status_of(token@) {
                Some(st) => r == Ok::<PlaybackStatus, ProtocolError>(st),
                None => r == Err::<PlaybackStatus, ProtocolError>(ProtocolError::UnknownStatus),
            },
    {
        if same_chars(token, "playing") {
            Ok(PlaybackStatus::Playing)
        } else if same_chars(token, "paused") {
            Ok(PlaybackStatus::Paused)
        } else if same_chars(token, "stopped") {
            Ok(PlaybackStatus::Stopped)
        } else {
            Err(ProtocolError::UnknownStatus)
        }
    }

    /// The name shown for this status.
    pub fn name(&self) -> (r: String)
        ensures
            r@ == status_name(*self),
    {
        match self {
            PlaybackStatus::Playing => "Playing".to_owned(),
            PlaybackStatus::Paused => "Paused".to_owned(),
            PlaybackStatus::Stopped => "Stopped".to_owned(),
        }
    }
}

/// One parsed response. A stopped player carries no other field; only a
/// playing one carries `duration` and `position`.
#[derive(Clone, Debug, PartialEq, Eq)]
pub struct StatusRecord {
    pub status: PlaybackStatus,
    pub artist: Option<String>,
    pub title: Option<String>,
    pub file: Option<String>,
    pub duration: Option<u64>,
    pub position: Option<u64>,
}

/// Mathematical form of a [`StatusRecord`].
pub struct RecordModel {
    pub status: PlaybackStatus,
    pub artist: Option<Seq<char>>,
    pub title: Option<Seq<char>>,
    pub file: Option<Seq<char>>,
    pub duration: Option<u64>,
    pub position: Option<u64>,
}

pub open spec fn text_view(o: Option<String>) -> Option<Seq<char>> {
    match o {
        Some(s) => Some(s@),
        None => None,
    }
}

impl View for StatusRecord {
    type V = RecordModel;

    open spec fn view(&self) -> RecordModel {
        RecordModel {
            status: self.status,
            artist: text_view(self.artist),
            title: text_view(self.title),
            file: text_view(self.file),
            duration: self.duration,
            position: self.position,
        }
    }
}

impl RecordModel {
    pub open spec fn well_formed(&self) -> bool {
        &&& (self.status == PlaybackStatus::Playing) == (self.duration is Some)
        &&& (self.status == PlaybackStatus::Playing) == (self.position is Some)
        &&& self.status == PlaybackStatus::Stopped ==> {
            &&& self.artist is None
            &&& self.title is None
            &&& self.file is None
        }
    }
}

impl StatusRecord {
    pub open spec fn well_formed(&self) -> bool {
        self@.well_formed()
    }
}

/// The record of a block whose status is `st`, carrying its tags but no
/// timing.
pub open spec fn tagged(s: Seq<char>, st: PlaybackStatus) -> RecordModel {
    RecordModel {
        status: st,
        artist: field(s, "tag artist"@),
        title: field(s, "tag title"@),
        file: field(s, "file"@),
        duration: None,
        position: None,
    }
}

/// What a response block means. The first failure in reading order is the
/// one reported; a stopped player's block is not read past its status.
pub open spec fn parse_spec(s: Seq<char>) -> Result<RecordModel, ProtocolError> {
    match field(s, "status"@) {
        None => Err(ProtocolError::MissingStatus),
        Some(token) => match status_of(token) {
            None => Err(ProtocolError::UnknownStatus),
            Some(PlaybackStatus::Stopped) => Ok(
                RecordModel {
                    status: PlaybackStatus::Stopped,
                    artist: None,
                    title: None,
                    file: None,
                    duration: None,
                    position: None,
                },
            ),
            Some(PlaybackStatus::Paused) => Ok(tagged(s, PlaybackStatus::Paused)),
            Some(PlaybackStatus::Playing) => match field(s, "duration"@) {
                None => Err(ProtocolError::MissingDuration),
                Some(d) => match number_of(d) {
                    None => Err(ProtocolError::MalformedNumber),
                    Some(dv) => match field(s, "position"@) {
                        None => Err(ProtocolError::MissingPosition),
                        Some(p) => match number_of(p) {
                            None => Err(ProtocolError::MalformedNumber),
                            Some(pv) => Ok(
                                RecordModel {
                                    duration: Some(dv),
                                    position: Some(pv),
                                    ..tagged(s, PlaybackStatus::Playing)
                                },
                            ),
                        },
                    },
                },
            },
        },
    }
}

/// Reads the number in field `key`, failing with `missing` when the field is
/// absent.
fn read_number(raw: &str, cs: &Vec<char>, key: &str, missing: ProtocolError) -> (r: Result<u64, ProtocolError>)
    requires
        cs@ == raw@,
    ensures
        match field(raw@, key@) {
            None => r == Err::<u64, ProtocolError>(missing),
            Some(v) => match number_of(v) {
                None => r == Err::<u64, ProtocolError>(ProtocolError::MalformedNumber),
                Some(n) => r == Ok::<u64, ProtocolError>(n),
            },
        },
{
    match find_field(raw, cs, key) {
        None => Err(missing),
        Some(v) => {
            let vc = chars_of(v.as_str());
            match parse_number(&vc) {
                None => Err(ProtocolError::MalformedNumber),
                Some(n) => Ok(n),
            }
        },
    }
}

/// Reads one response block. Nothing after its first empty line is looked at.
pub fn parse(raw: &str) -> (r: Result<StatusRecord, ProtocolError>)
    ensures
        match r {
            Ok(rec) => parse_spec(raw@) == Ok::<RecordModel, ProtocolError>(rec@),
            Err(e) => parse_spec(raw@) == Err::<RecordModel, ProtocolError>(e),
        },
{
    let cs = chars_of(raw);
    let token = match find_field(raw, &cs, "status") {
        None => return Err(ProtocolError::MissingStatus),
        Some(t) => t,
    };
    let status = PlaybackStatus::parse_token(token.as_str())?;
    if status == PlaybackStatus::Stopped {
        return Ok(
            StatusRecord {
                status,
                artist: None,
                title: None,
                file: None,
                duration: None,
                position: None,
            },
        );
    }
    let mut rec = StatusRecord {
        status,
        artist: find_field(raw, &cs, "tag artist"),
        title: find_field(raw, &cs, "tag title"),
        file: find_field(raw, &cs, "file"),
        duration: None,
        position: None,
    };
    if status == PlaybackStatus::Playing {
        let d = read_number(raw, &cs, "duration", ProtocolError::MissingDuration)?;
        let p = read_number(raw, &cs, "position", ProtocolError::MissingPosition)?;
        rec.duration = Some(d);
        rec.position = Some(p);
    }
    Ok(rec)
}

/// Whether, scanning lines from line start `i`, an empty line is met before
/// the end of `s`: the block that starts at `i` is complete.
pub open spec fn terminated_from(s: Seq<char>, i: int) -> bool
    decreases s.len() + 1 - i
    via terminated_from_decreases
{
    if i < 0 || i >= s.len() {
        false
    } else {
        let e = i + line_len_from(s, i);
        if e == i {
            true
        } else {
            terminated_from(s, e + 1)
        }
    }
}

#[via_fn]
proof fn terminated_from_decreases(s: Seq<char>, i: int) {
    if 0 <= i < s.len() {
        lemma_line_len_bound(s, i);
    }
}

/// `s` holds a whole response block, ended by its empty line.
pub open spec fn is_complete_block(s: Seq<char>) -> bool {
    terminated_from(s, 0)
}

/// Whether a line read from the player is the empty line that ends a block.
pub fn is_block_terminator(line: &str) -> (r: bool)
    ensures
        r == (line@.len() > 0 && line@[0] == '\n'),
{
    let cs = chars_of(line);
    cs.len() > 0 && cs[0] == '\n'
}

proof fn lemma_line_len_extend(s: Seq<char>, t: Seq<char>, i: int)
    requires
        0 <= i <= s.len(),
        i + line_len_from(s, i) < s.len(),
    ensures
        line_len_from(s + t, i) == line_len_from(s, i),
    decreases s.len() - i,
{
    if i < s.len() && s[i] != '\n' {
        lemma_line_len_extend(s, t, i + 1);
    }
}

proof fn lemma_field_extend(s: Seq<char>, t: Seq<char>, i: int, key: Seq<char>)
    requires
        0 <= i,
        terminated_from(s, i),
    ensures
        field_from(s + t, i, key) == field_from(s, i, key),
    decreases s.len() + 1 - i,
{
    let st = s + t;
    lemma_line_len_bound(s, i);
    let e = i + line_len_from(s, i);
    if e == i {
        assert(s[i] == '\n');
        assert(st[i] == '\n');
    } else {
        assert(terminated_from(s, e + 1));
        assert(e + 1 < s.len());
        lemma_line_len_extend(s, t, i);
        assert(st.subrange(i, e) =~= s.subrange(i, e));
        if e - i > key.len() + 1 {
            assert(st.subrange(i, i + key.len()) =~= s.subrange(i, i + key.len()));
            assert(st.subrange(i + key.len() + 1, e) =~= s.subrange(i + key.len() + 1, e));
            assert(st[i + key.len()] == s[i + key.len()]);
        }
        lemma_field_extend(s, t, e + 1, key);
    }
}

/// A complete block means the same whatever follows it: reading stops at
/// its empty line and needs nothing after it.
pub proof fn lemma_block_ends_at_terminator(block: Seq<char>, rest: Seq<char>)
    requires
        is_complete_block(block),
    ensures
        parse_spec(block + rest) == parse_spec(block),
{
    lemma_field_extend(block, rest, 0, "status"@);
    lemma_field_extend(block, rest, 0, "tag artist"@);
    lemma_field_extend(block, rest, 0, "tag title"@);
    lemma_field_extend(block, rest, 0, "file"@);
    lemma_field_extend(block, rest, 0, "duration"@);
    lemma_field_extend(block, rest, 0, "position"@);
}

/// A status token other than the three known ones is an error, never taken
/// for one of them.
pub proof fn lemma_unknown_status_rejected(s: Seq<char>, token: Seq<char>)
    requires
        field(s, "status"@) == Some(token),
        token != "playing"@,
        token != "paused"@,
        token != "stopped"@,
    ensures
        parse_spec(s) == Err::<RecordModel, ProtocolError>(ProtocolError::UnknownStatus),
{
}

} // verus!
