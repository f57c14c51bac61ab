//! One decoded flow record, and the reader that turns a line of text into
//! it. A record exists only for a line that is a JSON object carrying every
//! core field with the right type and range; any other line is rejected.

use vstd::prelude::*;

verus! {

/// The string stored under `key` in the JSON object that `line` spells:
/// `Some` exactly when `line` is valid JSON whose top level is an object,
/// the key is present, and its value is a JSON string.
pub uninterp spec fn json_str_field(line: Seq<char>, key: Seq<char>) -> Option<Seq<char>>;

/// The unsigned integer stored under `key` in the JSON object that `line`
/// spells: `Some` exactly when `line` is valid JSON whose top level is an
/// object, the key is present, and its value is an integer that fits in a
/// `u64`.
pub uninterp spec fn json_u64_field(line: Seq<char>, key: Seq<char>) -> Option<u64>;

/// Relies on `serde_json::from_str::<Value>`, `Value::get` and
/// `Value::as_str`: the string field under `key`, a function of the
/// characters of `line` and `key` alone.
#[verifier::external_body]
fn extract_str_field(line: &str, key: &str) -> (r: Option<String>)
    ensures
        (match r {
            Some(s) => json_str_field(line@, key@) == Some(s@),
            None => json_str_field(line@, key@) is None,
        }),
{
    match serde_json::from_str::<serde_json::Value>(line) {
        Ok(v) => v.get(key).and_then(|f| f.as_str()).map(|s| s.to_string()),
        Err(_) => None,
    }
}

/// Relies on `serde_json::from_str::<Value>`, `Value::get` and
/// `Value::as_u64`: the unsigned integer field under `key`, a function of
/// the characters of `line` and `key` alone.
#[verifier::external_body]
fn extract_u64_field(line: &str, key: &str) -> (r: Option<u64>)
    ensures
        r == json_u64_field(line@, key@),
{
    match serde_json::from_str::<serde_json::Value>(line) {
        Ok(v) => v.get(key).and_then(|f| f.as_u64()),
        Err(_) => None,
    }
}

/// One observation of network traffic, as decoded from one input line.
pub struct FlowRecord {
    pub flow_type: String,
    pub time_received_ns: u64,
    pub sequence_num: u32,
    pub sampling_rate: u32,
    pub sampler_address: String,
    pub time_flow_start_ns: u64,
    pub time_flow_end_ns: u64,
    pub bytes: u64,
    pub packets: u64,
    pub src_addr: String,
    pub dst_addr: String,
    pub etype: String,
    pub proto: String,
    pub src_port: u16,
    pub dst_port: u16,
    pub in_if: u32,
    pub out_if: u32,
}

/// The integer field under `key` is present and no larger than `bound`.
pub open spec fn u64_field_within(line: Seq<char>, key: Seq<char>, bound: u64) -> bool {
    match json_u64_field(line, key) {
        Some(x) => x <= bound,
        None => false,
    }
}

/// A line decodes to a record exactly when each core field is present with
/// the right type, and each narrow integer field fits its width.
pub open spec fn spec_line_valid(line: Seq<char>) -> bool {
    &&& json_str_field(line, "type"@) is Some
    &&& json_str_field(line, "sampler_address"@) is Some
    &&& json_str_field(line, "src_addr"@) is Some
    &&& json_str_field(line, "dst_addr"@) is Some
    &&& json_str_field(line, "etype"@) is Some
    &&& json_str_field(line, "proto"@) is Some
    &&& json_u64_field(line, "time_received_ns"@) is Some
    &&& json_u64_field(line, "time_flow_start_ns"@) is Some
    &&& json_u64_field(line, "time_flow_end_ns"@) is Some
    &&& json_u64_field(line, "bytes"@) is Some
    &&& json_u64_field(line, "packets"@) is Some
    &&& u64_field_within(line, "sequence_num"@, u32::MAX as u64)
    &&& u64_field_within(line, "sampling_rate"@, u32::MAX as u64)
    &&& u64_field_within(line, "in_if"@, u32::MAX as u64)
    &&& u64_field_within(line, "out_if"@, u32::MAX as u64)
    &&& u64_field_within(line, "src_port"@, u16::MAX as u64)
    &&& u64_field_within(line, "dst_port"@, u16::MAX as u64)
}

/// `rec` holds exactly the core fields of `line`.
pub open spec fn record_matches_line(rec: FlowRecord, line: Seq<char>) -> bool {
    &&& json_str_field(line, "type"@) == Some(rec.flow_type@)
    &&& json_str_field(line, "sampler_address"@) == Some(rec.sampler_address@)
    &&& json_str_field(line, "src_addr"@) == Some(rec.src_addr@)
    &&& json_str_field(line, "dst_addr"@) == Some(rec.dst_addr@)
    &&& json_str_field(line, "etype"@) == Some(rec.etype@)
    &&& json_str_field(line, "proto"@) == Some(rec.proto@)
    &&& json_u64_field(line, "time_received_ns"@) == Some(rec.time_received_ns)
    &&& json_u64_field(line, "time_flow_start_ns"@) == Some(rec.time_flow_start_ns)
    &&& json_u64_field(line, "time_flow_end_ns"@) == Some(rec.time_flow_end_ns)
    &&& json_u64_field(line, "bytes"@) == Some(rec.bytes)
    &&& json_u64_field(line, "packets"@) == Some(rec.packets)
    &&& json_u64_field(line, "sequence_num"@) == Some(rec.sequence_num as u64)
    &&& json_u64_field(line, "sampling_rate"@) == Some(rec.sampling_rate as u64)
    &&& json_u64_field(line, "in_if"@) == Some(rec.in_if as u64)
    &&& json_u64_field(line, "out_if"@) == Some(rec.out_if as u64)
    &&& json_u64_field(line, "src_port"@) == Some(rec.src_port as u64)
    &&& json_u64_field(line, "dst_port"@) == Some(rec.dst_port as u64)
}

/// Decodes one line. Returns the record exactly when the line is valid; a
/// malformed line is a skip for the caller, never a halt.
pub fn parse_record(line: &str) -> (r: Option<FlowRecord>)
    ensures
        r is Some <==> spec_line_valid(line@),
        (match r {
            Some(rec) => record_matches_line(rec, line@),
            None => true,
        }),
{
    let flow_type = match extract_str_field(line, "type") {
        Some(s) => s,
        None => {
            return None;
        },
    };
    let sampler_address = match extract_str_field(line, "sampler_address") {
        Some(s) => s,
        None => {
            return None;
        },
    };
    let src_addr = match extract_str_field(line, "src_addr") {
        Some(s) => s,
        None => {
            return None;
        },
    };
    let dst_addr = match extract_str_field(line, "dst_addr") {
        Some(s) => s,
        None => {
            return None;
        },
    };
    let etype = match extract_str_field(line, "etype") {
        Some(s) => s,
        None => {
            return None;
        },
    };
    let proto = match extract_str_field(line, "proto") {
        Some(s) => s,
        None => {
            return None;
        },
    };
    let time_received_ns = match extract_u64_field(line, "time_received_ns") {
        Some(v) => v,
        None => {
            return None;
        },
    };
    let time_flow_start_ns = match extract_u64_field(line, "time_flow_start_ns") {
        Some(v) => v,
        None => {
            return None;
        },
    };
    let time_flow_end_ns = match extract_u64_field(line, "time_flow_end_ns") {
        Some(v) => v,
        None => {
            return None;
        },
    };
    let bytes = match extract_u64_field(line, "bytes") {
        Some(v) => v,
        None => {
            return None;
        },
    };
    let packets = match extract_u64_field(line, "packets") {
        Some(v) => v,
        None => {
            return None;
        },
    };
    let sequence_num = match narrow_u32_field(line, "sequence_num") {
        Some(v) => v,
        None => {
            return None;
        },
    };
    let sampling_rate = match narrow_u32_field(line, "sampling_rate") {
        Some(v) => v,
        None => {
            return None;
        },
    };
    let in_if = match narrow_u32_field(line, "in_if") {
        Some(v) => v,
        None => {
            return None;
        },
    };
    let out_if = match narrow_u32_field(line, "out_if") {
        Some(v) => v,
        None => {
            return None;
        },
    };
    let src_port = match narrow_u16_field(line, "src_port") {
        Some(v) => v,
        None => {
            return None;
        },
    };
    let dst_port = match narrow_u16_field(line, "dst_port") {
        Some(v) => v,
        None => {
            return None;
        },
    };
    Some(
        FlowRecord {
            flow_type,
            time_received_ns,
            sequence_num,
            sampling_rate,
            sampler_address,
            time_flow_start_ns,
            time_flow_end_ns,
            bytes,
            packets,
            src_addr,
            dst_addr,
            etype,
            proto,
            src_port,
            dst_port,
            in_if,
            out_if,
        },
    )
}

/// The integer field under `key` when it fits in a `u32`.
fn narrow_u32_field(line: &str, key: &str) -> (r: Option<u32>)
    ensures
        r is Some <==> u64_field_within(line@, key@, u32::MAX as u64),
        (match r {
            Some(v) => json_u64_field(line@, key@) == Some(v as u64),
            None => true,
        }),
{
    match extract_u64_field(line, key) {
        Some(v) => {
            if v <= u32::MAX as u64 {
                Some(v as u32)
            } else {
                None
            }
        },
        None => None,
    }
}

/// The integer field under `key` when it fits in a `u16`.
fn narrow_u16_field(line: &str, key: &str) -> (r: Option<u16>)
    ensures
        r is Some <==> u64_field_within(line@, key@, u16::MAX as u64),
        (match r {
            Some(v) => json_u64_field(line@, key@) == Some(v as u64),
            None => true,
        }),
{
    match extract_u64_field(line, key) {
        Some(v) => {
            if v <= u16::MAX as u64 {
                Some(v as u16)
            } else {
                None
            }
        },
        None => None,
    }
}

} // verus!
