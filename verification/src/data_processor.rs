use vstd::prelude::*;
use crate::date::{Date, Timestamp, spec_parse_timestamp, parse_timestamp};
use crate::json::{
    JsonValue, json_of, decode_json_line, spec_field, spec_absent, get_field,
};
use crate::numeric::{spec_numeric_literal, is_numeric_literal};

verus! {

/// One trade, fully validated: every required field was present and of the
/// right shape. The identifying strings and the sides' users are non-empty;
/// price, size and starting positions keep their decimal text, checked to
/// parse as floating-point literals; `time` is the instant the line wrote
/// down.
#[derive(Debug)]
pub struct Trade {
    pub coin: String,
    pub side: String,
    pub time: Timestamp,
    pub px: String,
    pub sz: String,
    pub hash: String,
    pub trade_dir_override: String,
    pub user_a: String,
    pub start_pos_a: String,
    pub oid_a: u64,
    pub twap_id_a: Option<String>,
    pub cloid_a: Option<String>,
    pub user_b: String,
    pub start_pos_b: String,
    pub oid_b: u64,
    pub twap_id_b: Option<String>,
    pub cloid_b: Option<String>,
}

impl Trade {
    /// Every constructed trade satisfies this: the instant is real, the
    /// identifying strings and users are non-empty, and the decimal fields
    /// hold floating-point text.
    pub open spec fn wf(self) -> bool {
        self.time.valid() && self.coin@.len() > 0 && self.side@.len() > 0 && self.hash@.len() > 0
            && self.trade_dir_override@.len() > 0 && self.user_a@.len() > 0 && self.user_b@.len()
            > 0 && spec_numeric_literal(self.px@) && spec_numeric_literal(self.sz@)
            && spec_numeric_literal(self.start_pos_a@) && spec_numeric_literal(self.start_pos_b@)
    }
}

/// Why a line was rejected. Rejection is reserved for corruption: a line
/// that is not JSON, a required field absent, a present field of the wrong
/// shape or content, or a timestamp that does not read as an instant.
#[derive(Debug, Clone, Copy, PartialEq, Eq, Structural)]
pub enum ParseErrorKind {
    /// The line is not well-formed JSON.
    InvalidJson,
    /// A required field is missing or null.
    MissingField,
    /// A required field is present but of the wrong shape or content.
    InvalidField,
    /// The timestamp text does not read as an instant of the fixed shape.
    InvalidTimestamp,
}

/// A hard, file-fatal rejection: which check failed, the field it concerns
/// (empty for a line that is not JSON), and the offending line's text.
#[derive(Debug)]
pub struct ParseError {
    pub kind: ParseErrorKind,
    pub field: String,
    pub line: String,
}

/// What one line yields when it is not rejected: a trade, or nothing for a
/// line that is filtered out (wrong side count, or another day's instant).
pub enum Parsed {
    NotApplicable,
    Trade(Trade),
}

/// The outcome a line is owed: filtered out, one trade, or a rejection
/// naming the failed check and field.
pub enum EventOutcome {
    Skip,
    Record(Trade),
    Fail(ParseErrorKind, Seq<char>),
}

/// A required string field: missing and null are absences; any other
/// non-string shape is corruption.
pub open spec fn spec_req_text(v: JsonValue, key: Seq<char>) -> Result<String, ParseErrorKind> {
    let f = spec_field(v, key);
    if spec_absent(f) {
        Err(ParseErrorKind::MissingField)
    } else {
        match f {
            Some(JsonValue::Text(s)) => Ok(s),
            _ => Err(ParseErrorKind::InvalidField),
        }
    }
}

/// A required identifying string: present, a string, and non-empty. An
/// empty identifier is present-with-wrong-content — corruption, not an
/// absence.
pub open spec fn spec_req_ident(v: JsonValue, key: Seq<char>) -> Result<String, ParseErrorKind> {
    match spec_req_text(v, key) {
        Err(k) => Err(k),
        Ok(s) => if s@.len() == 0 {
            Err(ParseErrorKind::InvalidField)
        } else {
            Ok(s)
        },
    }
}

/// A required string field that must hold floating-point text.
pub open spec fn spec_req_numeric(v: JsonValue, key: Seq<char>) -> Result<String, ParseErrorKind> {
    match spec_req_text(v, key) {
        Err(k) => Err(k),
        Ok(s) => if spec_numeric_literal(s@) {
            Ok(s)
        } else {
            Err(ParseErrorKind::InvalidField)
        },
    }
}

/// A required unsigned-integer field.
pub open spec fn spec_req_uint(v: JsonValue, key: Seq<char>) -> Result<u64, ParseErrorKind> {
    let f = spec_field(v, key);
    if spec_absent(f) {
        Err(ParseErrorKind::MissingField)
    } else {
        match f {
            Some(JsonValue::UInt(u)) => Ok(u),
            _ => Err(ParseErrorKind::InvalidField),
        }
    }
}

/// An optional string field: absent, or of any other shape, means none.
pub open spec fn spec_opt_text(v: JsonValue, key: Seq<char>) -> Option<String> {
    match spec_field(v, key) {
        Some(JsonValue::Text(s)) => Some(s),
        _ => None,
    }
}

/// One counterparty side's fields, in order: user, starting position,
/// order id, and the two optional ids. The error carries the flattened
/// field name the caller passes in.
pub open spec fn spec_parse_side(
    side: JsonValue,
    user_name: Seq<char>,
    pos_name: Seq<char>,
    oid_name: Seq<char>,
) -> Result<(String, String, u64, Option<String>, Option<String>), (ParseErrorKind, Seq<char>)> {
    match spec_req_ident(side, "user"@) {
        Err(k) => Err((k, user_name)),
        Ok(user) => match spec_req_numeric(side, "start_pos"@) {
            Err(k) => Err((k, pos_name)),
            Ok(pos) => match spec_req_uint(side, "oid"@) {
                Err(k) => Err((k, oid_name)),
                Ok(oid) => Ok(
                    (
                        user,
                        pos,
                        oid,
                        spec_opt_text(side, "twap_id"@),
                        spec_opt_text(side, "cloid"@),
                    ),
                ),
            },
        },
    }
}

/// The record a relevant, day-matching event is owed, field by field, or
/// the first failed check in the fixed order the fields are read in.
pub open spec fn spec_format_single_trade(
    v: JsonValue,
    side0: JsonValue,
    side1: JsonValue,
    time: Timestamp,
) -> EventOutcome {
    match spec_req_ident(v, "coin"@) {
        Err(k) => EventOutcome::Fail(k, "coin"@),
        Ok(coin) => match spec_req_ident(v, "side"@) {
            Err(k) => EventOutcome::Fail(k, "side"@),
            Ok(side) => match spec_req_numeric(v, "px"@) {
                Err(k) => EventOutcome::Fail(k, "px"@),
                Ok(px) => match spec_req_numeric(v, "sz"@) {
                    Err(k) => EventOutcome::Fail(k, "sz"@),
                    Ok(sz) => match spec_req_ident(v, "hash"@) {
                        Err(k) => EventOutcome::Fail(k, "hash"@),
                        Ok(hash) => match spec_req_ident(v, "trade_dir_override"@) {
                            Err(k) => EventOutcome::Fail(k, "trade_dir_override"@),
                            Ok(tdo) => match spec_parse_side(
                                side0,
                                "user_a"@,
                                "start_pos_a"@,
                                "oid_a"@,
                            ) {
                                Err((k, f)) => EventOutcome::Fail(k, f),
                                Ok(a) => match spec_parse_side(
                                    side1,
                                    "user_b"@,
                                    "start_pos_b"@,
                                    "oid_b"@,
                                ) {
                                    Err((k, f)) => EventOutcome::Fail(k, f),
                                    Ok(b) => EventOutcome::Record(
                                        Trade {
                                            coin,
                                            side,
                                            time,
                                            px,
                                            sz,
                                            hash,
                                            trade_dir_override: tdo,
                                            user_a: a.0,
                                            start_pos_a: a.1,
                                            oid_a: a.2,
                                            twap_id_a: a.3,
                                            cloid_a: a.4,
                                            user_b: b.0,
                                            start_pos_b: b.1,
                                            oid_b: b.2,
                                            twap_id_b: b.3,
                                            cloid_b: b.4,
                                        },
                                    ),
                                },
                            },
                        },
                    },
                },
            },
        },
    }
}

/// What one decoded event yields against a target day. An event without an
/// array of exactly two sides is filtered, never rejected; so is a relevant
/// event whose instant falls on another day. A relevant event's timestamp
/// must be present and read as an instant, and a relevant, day-matching
/// event must pass every field check.
pub open spec fn spec_parse_event(v: JsonValue, target_day: Date) -> EventOutcome {
    match spec_field(v, "side_info"@) {
        Some(JsonValue::Array(sides)) => if sides@.len() != 2 {
            EventOutcome::Skip
        } else {
            match spec_req_text(v, "time"@) {
                Err(k) => EventOutcome::Fail(k, "time"@),
                Ok(t) => match spec_parse_timestamp(t@) {
                    None => EventOutcome::Fail(ParseErrorKind::InvalidTimestamp, "time"@),
                    Some(ts) => if ts.date != target_day {
                        EventOutcome::Skip
                    } else {
                        spec_format_single_trade(v, sides@[0], sides@[1], ts)
                    },
                },
            }
        },
        _ => EventOutcome::Skip,
    }
}

/// What one raw line yields: decoding failure is a rejection of its own,
/// anything else is the decoded event's outcome.
pub open spec fn spec_parse_line(s: Seq<char>, target_day: Date) -> EventOutcome {
    match json_of(s) {
        None => EventOutcome::Fail(ParseErrorKind::InvalidJson, Seq::<char>::empty()),
        Some(v) => spec_parse_event(v, target_day),
    }
}

/// The event carries an array of exactly two counterparty sides.
pub open spec fn spec_is_two_sided(v: JsonValue) -> bool {
    spec_field(v, "side_info"@) matches Some(JsonValue::Array(sides)) && sides@.len() == 2
}

/// The event's sides, when it has an array of them.
pub open spec fn spec_sides(v: JsonValue) -> Seq<JsonValue> {
    match spec_field(v, "side_info"@) {
        Some(JsonValue::Array(sides)) => sides@,
        _ => Seq::<JsonValue>::empty(),
    }
}

/// A law of the relevance filter: an event whose side array does not hold
/// exactly two sides — or that has no side array at all — is filtered out,
/// never rejected, whatever its other fields hold.
pub proof fn lemma_wrong_side_count_is_filtered(v: JsonValue, target_day: Date)
    requires
        !spec_is_two_sided(v),
    ensures
        spec_parse_event(v, target_day) == EventOutcome::Skip,
{
}

/// A law of the day filter: a two-sided event whose timestamp reads as an
/// instant of another day is filtered out, never rejected, whatever its
/// other fields hold.
pub proof fn lemma_other_day_is_filtered(
    v: JsonValue,
    target_day: Date,
    tstr: String,
    ts: Timestamp,
)
    requires
        spec_is_two_sided(v),
        spec_req_text(v, "time"@) == Ok::<String, ParseErrorKind>(tstr),
        spec_parse_timestamp(tstr@) == Some(ts),
        ts.date != target_day,
    ensures
        spec_parse_event(v, target_day) == EventOutcome::Skip,
{
}

/// A law of acceptance: a two-sided, day-matching event whose required
/// fields are all well formed parses to a trade whose fields are exactly
/// the event's values.
pub proof fn lemma_valid_event_round_trips(
    v: JsonValue,
    target_day: Date,
    tstr: String,
    ts: Timestamp,
)
    requires
        spec_is_two_sided(v),
        spec_req_text(v, "time"@) == Ok::<String, ParseErrorKind>(tstr),
        spec_parse_timestamp(tstr@) == Some(ts),
        ts.date == target_day,
        spec_req_ident(v, "coin"@) is Ok,
        spec_req_ident(v, "side"@) is Ok,
        spec_req_numeric(v, "px"@) is Ok,
        spec_req_numeric(v, "sz"@) is Ok,
        spec_req_ident(v, "hash"@) is Ok,
        spec_req_ident(v, "trade_dir_override"@) is Ok,
        spec_parse_side(spec_sides(v)[0], "user_a"@, "start_pos_a"@, "oid_a"@) is Ok,
        spec_parse_side(spec_sides(v)[1], "user_b"@, "start_pos_b"@, "oid_b"@) is Ok,
    ensures
        spec_parse_event(v, target_day) matches EventOutcome::Record(t) && t == (Trade {
            coin: spec_req_ident(v, "coin"@)->Ok_0,
            side: spec_req_ident(v, "side"@)->Ok_0,
            time: ts,
            px: spec_req_numeric(v, "px"@)->Ok_0,
            sz: spec_req_numeric(v, "sz"@)->Ok_0,
            hash: spec_req_ident(v, "hash"@)->Ok_0,
            trade_dir_override: spec_req_ident(v, "trade_dir_override"@)->Ok_0,
            user_a: spec_parse_side(spec_sides(v)[0], "user_a"@, "start_pos_a"@, "oid_a"@)->Ok_0.0,
            start_pos_a: spec_parse_side(
                spec_sides(v)[0],
                "user_a"@,
                "start_pos_a"@,
                "oid_a"@,
            )->Ok_0.1,
            oid_a: spec_parse_side(spec_sides(v)[0], "user_a"@, "start_pos_a"@, "oid_a"@)->Ok_0.2,
            twap_id_a: spec_opt_text(spec_sides(v)[0], "twap_id"@),
            cloid_a: spec_opt_text(spec_sides(v)[0], "cloid"@),
            user_b: spec_parse_side(spec_sides(v)[1], "user_b"@, "start_pos_b"@, "oid_b"@)->Ok_0.0,
            start_pos_b: spec_parse_side(
                spec_sides(v)[1],
                "user_b"@,
                "start_pos_b"@,
                "oid_b"@,
            )->Ok_0.1,
            oid_b: spec_parse_side(spec_sides(v)[1], "user_b"@, "start_pos_b"@, "oid_b"@)->Ok_0.2,
            twap_id_b: spec_opt_text(spec_sides(v)[1], "twap_id"@),
            cloid_b: spec_opt_text(spec_sides(v)[1], "cloid"@),
        }),
{
}

/// A law of construction: a trade never leaves the parser partial or on
/// the wrong day — it is well formed and falls on the target day.
pub proof fn lemma_parsed_trade_is_wf(v: JsonValue, target_day: Date, t: Trade)
    requires
        spec_parse_event(v, target_day) == EventOutcome::Record(t),
    ensures
        t.wf(),
        t.time.date == target_day,
{
}

/// A law of the optional ids: a client order id absent from both sides is
/// no error — a trade parsed from such an event carries none.
pub proof fn lemma_absent_cloid_stays_absent(v: JsonValue, target_day: Date, t: Trade)
    requires
        spec_parse_event(v, target_day) == EventOutcome::Record(t),
        spec_opt_text(spec_sides(v)[0], "cloid"@) is None,
        spec_opt_text(spec_sides(v)[1], "cloid"@) is None,
    ensures
        t.cloid_a is None,
        t.cloid_b is None,
{
}

fn mk_err(kind: ParseErrorKind, field: &str, line: &str) -> (e: ParseError)
    ensures
        e.kind == kind,
        e.field@ == field@,
        e.line@ == line@,
{
    ParseError { kind, field: field.to_owned(), line: line.to_owned() }
}

fn req_text<'a>(v: &'a JsonValue, key: &str) -> (r: Result<&'a String, ParseErrorKind>)
    ensures
        match spec_req_text(*v, key@) {
            Ok(s) => r matches Ok(rs) && *rs == s,
            Err(k) => r matches Err(rk) && rk == k,
        },
{
    match get_field(v, key) {
        None => Err(ParseErrorKind::MissingField),
        Some(f) => match f {
            JsonValue::Null => Err(ParseErrorKind::MissingField),
            JsonValue::Text(s) => Ok(s),
            _ => Err(ParseErrorKind::InvalidField),
        },
    }
}

fn req_ident<'a>(v: &'a JsonValue, key: &str) -> (r: Result<&'a String, ParseErrorKind>)
    ensures
        match spec_req_ident(*v, key@) {
            Ok(s) => r matches Ok(rs) && *rs == s,
            Err(k) => r matches Err(rk) && rk == k,
        },
{
    match req_text(v, key) {
        Err(k) => Err(k),
        Ok(s) => if s.as_str().is_empty() {
            Err(ParseErrorKind::InvalidField)
        } else {
            Ok(s)
        },
    }
}

fn req_numeric<'a>(v: &'a JsonValue, key: &str) -> (r: Result<&'a String, ParseErrorKind>)
    ensures
        match spec_req_numeric(*v, key@) {
            Ok(s) => r matches Ok(rs) && *rs == s,
            Err(k) => r matches Err(rk) && rk == k,
        },
{
    match req_text(v, key) {
        Err(k) => Err(k),
        Ok(s) => if is_numeric_literal(s.as_str()) {
            Ok(s)
        } else {
            Err(ParseErrorKind::InvalidField)
        },
    }
}

fn req_uint(v: &JsonValue, key: &str) -> (r: Result<u64, ParseErrorKind>)
    ensures
        match spec_req_uint(*v, key@) {
            Ok(u) => r == Ok::<u64, ParseErrorKind>(u),
            Err(k) => r == Err::<u64, ParseErrorKind>(k),
        },
{
    match get_field(v, key) {
        None => Err(ParseErrorKind::MissingField),
        Some(f) => match f {
            JsonValue::Null => Err(ParseErrorKind::MissingField),
            JsonValue::UInt(u) => Ok(*u),
            _ => Err(ParseErrorKind::InvalidField),
        },
    }
}

fn opt_text(v: &JsonValue, key: &str) -> (r: Option<String>)
    ensures
        r == spec_opt_text(*v, key@),
{
    match get_field(v, key) {
        Some(JsonValue::Text(s)) => Some(s.clone()),
        _ => None,
    }
}

fn parse_side(
    side: &JsonValue,
    user_name: &str,
    pos_name: &str,
    oid_name: &str,
    line: &str,
) -> (r: Result<(String, String, u64, Option<String>, Option<String>), ParseError>)
    ensures
        match spec_parse_side(*side, user_name@, pos_name@, oid_name@) {
            Ok(fields) => r matches Ok(got) && got == fields,
            Err((k, f)) => r matches Err(e) && e.kind == k && e.field@ == f && e.line@ == line@,
        },
{
    let user = match req_ident(side, "user") {
        Ok(s) => s.clone(),
        Err(k) => {
            return Err(mk_err(k, user_name, line));
        },
    };
    let pos = match req_numeric(side, "start_pos") {
        Ok(s) => s.clone(),
        Err(k) => {
            return Err(mk_err(k, pos_name, line));
        },
    };
    let oid = match req_uint(side, "oid") {
        Ok(u) => u,
        Err(k) => {
            return Err(mk_err(k, oid_name, line));
        },
    };
    Ok((user, pos, oid, opt_text(side, "twap_id"), opt_text(side, "cloid")))
}

/// Reads every field of a relevant, day-matching event into a trade, or
/// rejects it at the first failed check.
pub fn format_single_trade(
    raw_trade: &JsonValue,
    side_info: &Vec<JsonValue>,
    time: Timestamp,
    line: &str,
) -> (r: Result<Trade, ParseError>)
    requires
        side_info@.len() == 2,
    ensures
        match spec_format_single_trade(*raw_trade, side_info@[0], side_info@[1], time) {
            EventOutcome::Record(t) => r matches Ok(got) && got == t,
            EventOutcome::Fail(k, f) => r matches Err(e) && e.kind == k && e.field@ == f && e.line@
                == line@,
            EventOutcome::Skip => false,
        },
{
    let coin = match req_ident(raw_trade, "coin") {
        Ok(s) => s.clone(),
        Err(k) => {
            return Err(mk_err(k, "coin", line));
        },
    };
    let side = match req_ident(raw_trade, "side") {
        Ok(s) => s.clone(),
        Err(k) => {
            return Err(mk_err(k, "side", line));
        },
    };
    let px = match req_numeric(raw_trade, "px") {
        Ok(s) => s.clone(),
        Err(k) => {
            return Err(mk_err(k, "px", line));
        },
    };
    let sz = match req_numeric(raw_trade, "sz") {
        Ok(s) => s.clone(),
        Err(k) => {
            return Err(mk_err(k, "sz", line));
        },
    };
    let hash = match req_ident(raw_trade, "hash") {
        Ok(s) => s.clone(),
        Err(k) => {
            return Err(mk_err(k, "hash", line));
        },
    };
    let tdo = match req_ident(raw_trade, "trade_dir_override") {
        Ok(s) => s.clone(),
        Err(k) => {
            return Err(mk_err(k, "trade_dir_override", line));
        },
    };
    let a = match parse_side(&side_info[0], "user_a", "start_pos_a", "oid_a", line) {
        Ok(t) => t,
        Err(e) => {
            return Err(e);
        },
    };
    let b = match parse_side(&side_info[1], "user_b", "start_pos_b", "oid_b", line) {
        Ok(t) => t,
        Err(e) => {
            return Err(e);
        },
    };
    Ok(
        Trade {
            coin,
            side,
            time,
            px,
            sz,
            hash,
            trade_dir_override: tdo,
            user_a: a.0,
            start_pos_a: a.1,
            oid_a: a.2,
            twap_id_a: a.3,
            cloid_a: a.4,
            user_b: b.0,
            start_pos_b: b.1,
            oid_b: b.2,
            twap_id_b: b.3,
            cloid_b: b.4,
        },
    )
}

/// Sorts one decoded event against the target day: filtered, one trade, or
/// a rejection carrying the line's text.
pub fn parse_event(v: &JsonValue, target_day: &Date, line: &str) -> (r: Result<
    Parsed,
    ParseError,
>)
    ensures
        match spec_parse_event(*v, *target_day) {
            EventOutcome::Skip => r matches Ok(p) && p is NotApplicable,
            EventOutcome::Record(t) => r matches Ok(p) && p matches Parsed::Trade(got) && got == t,
            EventOutcome::Fail(k, f) => r matches Err(e) && e.kind == k && e.field@ == f && e.line@
                == line@,
        },
{
    match get_field(v, "side_info") {
        Some(JsonValue::Array(sides)) => {
            if sides.len() != 2 {
                return Ok(Parsed::NotApplicable);
            }
            let t = match req_text(v, "time") {
                Ok(s) => s,
                Err(k) => {
                    return Err(mk_err(k, "time", line));
                },
            };
            let ts = match parse_timestamp(t.as_str()) {
                Some(ts) => ts,
                None => {
                    return Err(mk_err(ParseErrorKind::InvalidTimestamp, "time", line));
                },
            };
            if ts.date != *target_day {
                return Ok(Parsed::NotApplicable);
            }
            match format_single_trade(v, sides, ts, line) {
                Ok(tr) => Ok(Parsed::Trade(tr)),
                Err(e) => Err(e),
            }
        },
        _ => Ok(Parsed::NotApplicable),
    }
}

/// Parses one raw log line against the target day.
pub fn parse_line(line: &str, target_day: &Date) -> (r: Result<Parsed, ParseError>)
    ensures
        match spec_parse_line(line@, *target_day) {
            EventOutcome::Skip => r matches Ok(p) && p is NotApplicable,
            EventOutcome::Record(t) => r matches Ok(p) && p matches Parsed::Trade(got) && got == t,
            EventOutcome::Fail(k, f) => r matches Err(e) && e.kind == k && e.field@ == f && e.line@
                == line@,
        },
{
    match decode_json_line(line) {
        None => {
            proof {
                reveal_strlit("");
                assert(""@ =~= Seq::<char>::empty());
            }
            Err(mk_err(ParseErrorKind::InvalidJson, "", line))
        },
        Some(v) => parse_event(&v, target_day, line),
    }
}

/// A hard rejection, as a file-level fact: the failed check, the field it
/// concerns, and the offending line's characters.
pub struct LineFailure {
    pub kind: ParseErrorKind,
    pub field: Seq<char>,
    pub line: Seq<char>,
}

/// What a whole hour file is owed: its day-matching trades in line order,
/// or its first rejected line — a rejection forfeits the file's trades.
pub open spec fn spec_parse_file(lines: Seq<String>, target_day: Date) -> Result<
    Seq<Trade>,
    LineFailure,
>
    decreases lines.len(),
{
    if lines.len() == 0 {
        Ok(Seq::<Trade>::empty())
    } else {
        match spec_parse_line(lines[0]@, target_day) {
            EventOutcome::Fail(k, f) => Err(
                LineFailure { kind: k, field: f, line: lines[0]@ },
            ),
            EventOutcome::Skip => spec_parse_file(lines.drop_first(), target_day),
            EventOutcome::Record(t) => match spec_parse_file(lines.drop_first(), target_day) {
                Ok(rest) => Ok(seq![t] + rest),
                Err(e) => Err(e),
            },
        }
    }
}

/// Parses one hour file's lines in order, appending the day's trades to
/// `trades`; the first rejected line aborts the file and leaves `trades`
/// untouched.
pub fn process_trade_file(lines: &Vec<String>, trades: &mut Vec<Trade>, batch_day: &Date) -> (r:
    Result<(), ParseError>)
    ensures
        match spec_parse_file(lines@, *batch_day) {
            Ok(ts) => r is Ok && final(trades)@ == old(trades)@ + ts,
            Err(f) => r matches Err(e) && e.kind == f.kind && e.field@ == f.field && e.line@
                == f.line && final(trades)@ == old(trades)@,
        },
{
    let mut acc: Vec<Trade> = Vec::new();
    let n = lines.len();
    proof {
        assert(lines@.skip(0) =~= lines@);
        if spec_parse_file(lines@, *batch_day) is Ok {
            assert(Seq::<Trade>::empty() + spec_parse_file(lines@, *batch_day)->Ok_0
                =~= spec_parse_file(lines@, *batch_day)->Ok_0);
        }
    }
    for i in 0..n
        invariant
            n == lines.len(),
            match spec_parse_file(lines@.skip(i as int), *batch_day) {
                Ok(rest) => spec_parse_file(lines@, *batch_day) == Ok::<Seq<Trade>, LineFailure>(
                    acc@ + rest,
                ),
                Err(e) => spec_parse_file(lines@, *batch_day) == Err::<Seq<Trade>, LineFailure>(e),
            },
            trades@ == old(trades)@,
    {
        proof {
            assert(lines@.skip(i as int)[0] == lines@[i as int]);
            assert(lines@.skip(i as int).drop_first() =~= lines@.skip(i as int + 1));
        }
        match parse_line(lines[i].as_str(), batch_day) {
            Ok(Parsed::NotApplicable) => {
            },
            Ok(Parsed::Trade(t)) => {
                proof {
                    let ghost rest_now = spec_parse_file(lines@.skip(i as int), *batch_day);
                    let ghost rest_next = spec_parse_file(lines@.skip(i as int + 1), *batch_day);
                    if rest_next is Ok {
                        assert((acc@ + (seq![t] + rest_next->Ok_0)) =~= (acc@.push(t)
                            + rest_next->Ok_0));
                    }
                }
                acc.push(t);
            },
            Err(e) => {
                return Err(e);
            },
        }
    }
    proof {
        assert(lines@.skip(n as int).len() == 0);
        assert(acc@ + Seq::<Trade>::empty() =~= acc@);
    }
    trades.append(&mut acc);
    Ok(())
}

/// One day's raw data, as the day directory offers it: absent altogether,
/// or one optional hour file of lines for each hour `0` through `23`, in
/// that fixed order (an absent hour file is a normal gap, not an error).
pub enum DayData {
    Missing,
    Present(Vec<Option<Vec<String>>>),
}

/// A rejection located in a day: the hour slot it came from, and the line's
/// failure.
pub struct HourFailure {
    pub hour: int,
    pub fail: LineFailure,
}

/// What the hour slots from `i` on are owed: their trades concatenated in
/// hour order, or the first rejection with its hour.
pub open spec fn spec_extract_from(
    hours: Seq<Option<Vec<String>>>,
    target_day: Date,
    i: int,
) -> Result<Seq<Trade>, HourFailure>
    decreases hours.len() - i,
{
    if i < 0 || i >= hours.len() {
        Ok(Seq::<Trade>::empty())
    } else {
        let head: Result<Seq<Trade>, LineFailure> = match hours[i] {
            None => Ok(Seq::<Trade>::empty()),
            Some(lines) => spec_parse_file(lines@, target_day),
        };
        match head {
            Err(f) => Err(HourFailure { hour: i, fail: f }),
            Ok(ts) => match spec_extract_from(hours, target_day, i + 1) {
                Ok(rest) => Ok(ts + rest),
                Err(e) => Err(e),
            },
        }
    }
}

/// What one whole day is owed: nothing when its directory is absent, else
/// the present hour files' trades in ascending hour order, or the first
/// rejection.
pub open spec fn spec_process_data(data: DayData, target_day: Date) -> Result<
    Seq<Trade>,
    HourFailure,
> {
    match data {
        DayData::Missing => Ok(Seq::<Trade>::empty()),
        DayData::Present(hours) => spec_extract_from(hours@, target_day, 0),
    }
}

/// A rejection as the extractor reports it: the hour slot whose file held
/// the offending line, and the line's error.
#[derive(Debug)]
pub struct ExtractError {
    pub hour: usize,
    pub error: ParseError,
}

/// Extracts one day's trades from its raw data. An absent day yields no
/// trades and no error; hour files are read in ascending hour order, and
/// the first rejected line anywhere aborts the day.
pub fn process_data(data: &DayData, batch_day: &Date) -> (r: Result<Vec<Trade>, ExtractError>)
    ensures
        match spec_process_data(*data, *batch_day) {
            Ok(ts) => r matches Ok(v) && v@ == ts,
            Err(h) => r matches Err(e) && e.hour as int == h.hour && e.error.kind == h.fail.kind
                && e.error.field@ == h.fail.field && e.error.line@ == h.fail.line,
        },
{
    match data {
        DayData::Missing => Ok(Vec::new()),
        DayData::Present(hours) => {
            let mut acc: Vec<Trade> = Vec::new();
            let n = hours.len();
            for i in 0..n
                invariant
                    n == hours.len(),
                    *data == DayData::Present(*hours),
                    match spec_extract_from(hours@, *batch_day, i as int) {
                        Ok(rest) => spec_extract_from(hours@, *batch_day, 0) == Ok::<
                            Seq<Trade>,
                            HourFailure,
                        >(acc@ + rest),
                        Err(e) => spec_extract_from(hours@, *batch_day, 0) == Err::<
                            Seq<Trade>,
                            HourFailure,
                        >(e),
                    },
            {
                let ghost acc_before = acc@;
                match &hours[i] {
                    None => {
                        proof {
                            assert(acc@ + Seq::<Trade>::empty() =~= acc@);
                        }
                    },
                    Some(lines) => {
                        match process_trade_file(lines, &mut acc, batch_day) {
                            Ok(()) => {
                                proof {
                                    let ghost ts = spec_parse_file(lines@, *batch_day)->Ok_0;
                                    let ghost next = spec_extract_from(
                                        hours@,
                                        *batch_day,
                                        i as int + 1,
                                    );
                                    if next is Ok {
                                        assert((acc_before + (ts + next->Ok_0)) =~= (
                                        (acc_before + ts) + next->Ok_0));
                                    }
                                }
                            },
                            Err(e) => {
                                proof {
                                    let ghost f = spec_parse_file(lines@, *batch_day)->Err_0;
                                    assert(spec_parse_file(lines@, *batch_day) is Err);
                                    assert(spec_extract_from(hours@, *batch_day, i as int)
                                        == Err::<Seq<Trade>, HourFailure>(
                                        HourFailure { hour: i as int, fail: f },
                                    ));
                                }
                                return Err(ExtractError { hour: i, error: e });
                            },
                        }
                    },
                }
            }
            proof {
                assert(acc@ + Seq::<Trade>::empty() =~= acc@);
            }
            Ok(acc)
        },
    }
}

} // verus!
