//! The transform from an accepted record to the sink's native write unit: a
//! named measurement with indexed tags, numeric field values, and a
//! timestamp taken from the record's receipt time.

use vstd::prelude::*;
use crate::record::FlowRecord;

verus! {

/// One point offered to the sink: tag values are indexed text, field values
/// are numeric, and the timestamp orders the point.
pub struct WriteUnit {
    pub measurement: String,
    pub flow_type: String,
    pub src_addr: String,
    pub dst_addr: String,
    pub proto: String,
    pub sampler_address: String,
    pub bytes: i64,
    pub packets: i64,
    pub src_port: i64,
    pub dst_port: i64,
    pub sequence_num: i64,
    pub sampling_rate: i64,
    pub time_flow_start_ns: i64,
    pub time_flow_end_ns: i64,
    pub in_if: i64,
    pub out_if: i64,
    pub timestamp: i64,
}

/// `u` is exactly the write unit of `rec`: the measurement is "netflow",
/// the tags carry the record's text fields unchanged, the numeric fields
/// carry its counts, and the timestamp is the receipt time.
pub open spec fn unit_matches_record(u: WriteUnit, rec: FlowRecord) -> bool {
    &&& u.measurement@ == "netflow"@
    &&& u.flow_type@ == rec.flow_type@
    &&& u.src_addr@ == rec.src_addr@
    &&& u.dst_addr@ == rec.dst_addr@
    &&& u.proto@ == rec.proto@
    &&& u.sampler_address@ == rec.sampler_address@
    &&& u.bytes == rec.bytes as i64
    &&& u.packets == rec.packets as i64
    &&& u.src_port == rec.src_port as i64
    &&& u.dst_port == rec.dst_port as i64
    &&& u.sequence_num == rec.sequence_num as i64
    &&& u.sampling_rate == rec.sampling_rate as i64
    &&& u.time_flow_start_ns == rec.time_flow_start_ns as i64
    &&& u.time_flow_end_ns == rec.time_flow_end_ns as i64
    &&& u.in_if == rec.in_if as i64
    &&& u.out_if == rec.out_if as i64
    &&& u.timestamp == rec.time_received_ns as i64
}

/// The total, deterministic mapping from an accepted record to its one
/// write unit. Wide counters keep the record's own bit pattern.
pub fn flow_to_write_unit(flow: &FlowRecord) -> (u: WriteUnit)
    ensures
        unit_matches_record(u, *flow),
{
    WriteUnit {
        measurement: "netflow".to_owned(),
        flow_type: flow.flow_type.clone(),
        src_addr: flow.src_addr.clone(),
        dst_addr: flow.dst_addr.clone(),
        proto: flow.proto.clone(),
        sampler_address: flow.sampler_address.clone(),
        bytes: #[verifier::truncate] (flow.bytes as i64),
        packets: #[verifier::truncate] (flow.packets as i64),
        src_port: flow.src_port as i64,
        dst_port: flow.dst_port as i64,
        sequence_num: flow.sequence_num as i64,
        sampling_rate: flow.sampling_rate as i64,
        time_flow_start_ns: #[verifier::truncate] (flow.time_flow_start_ns as i64),
        time_flow_end_ns: #[verifier::truncate] (flow.time_flow_end_ns as i64),
        in_if: flow.in_if as i64,
        out_if: flow.out_if as i64,
        timestamp: #[verifier::truncate] (flow.time_received_ns as i64),
    }
}

} // verus!
