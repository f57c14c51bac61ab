//! The ingestion loop's state machine. Each line is classified — blank,
//! malformed, out of scope, or accepted — and an accepted line's unit is
//! accumulated; a batch that reaches capacity is handed out to be flushed,
//! and a non-empty remainder is handed out once at end of stream. The
//! surrounding process performs the reads, the writes and the pacing; every
//! decision is made here, so a whole run can be checked against a vector of
//! lines.

use vstd::prelude::*;
use crate::batch::BatchAccumulator;
use crate::record::{json_str_field, json_u64_field, spec_line_valid, record_matches_line,
    parse_record};
use crate::scope::{spec_is_private_ip, is_private_ip};
use crate::text::{spec_is_blank, is_blank};
use crate::transform::{WriteUnit, unit_matches_record, flow_to_write_unit};

verus! {

/// The source-address text of a line's record (empty when the line has
/// none).
pub open spec fn spec_src_addr(line: Seq<char>) -> Seq<char> {
    match json_str_field(line, "src_addr"@) {
        Some(s) => s,
        None => Seq::empty(),
    }
}

/// A non-blank line that decodes to a record.
pub open spec fn spec_line_decoded(line: Seq<char>) -> bool {
    !spec_is_blank(line) && spec_line_valid(line)
}

/// A decoded line whose source address passes the scope filter.
pub open spec fn spec_line_in_scope(line: Seq<char>) -> bool {
    spec_line_decoded(line) && spec_is_private_ip(spec_src_addr(line))
}

/// A decoded line kept back by the scope filter: a counted outcome, not an
/// error.
pub open spec fn spec_line_filtered(line: Seq<char>) -> bool {
    spec_line_decoded(line) && !spec_is_private_ip(spec_src_addr(line))
}

/// A non-blank line that does not decode: a parse failure, logged and
/// skipped.
pub open spec fn spec_line_parse_failed(line: Seq<char>) -> bool {
    !spec_is_blank(line) && !spec_line_valid(line)
}

/// `u` is exactly the write unit of `line`: the tags carry the line's text
/// fields, the numeric fields its counts, and the timestamp its receipt
/// time.
pub open spec fn unit_matches_line(u: WriteUnit, line: Seq<char>) -> bool {
    &&& u.measurement@ == "netflow"@
    &&& json_str_field(line, "type"@) == Some(u.flow_type@)
    &&& json_str_field(line, "src_addr"@) == Some(u.src_addr@)
    &&& json_str_field(line, "dst_addr"@) == Some(u.dst_addr@)
    &&& json_str_field(line, "proto"@) == Some(u.proto@)
    &&& json_str_field(line, "sampler_address"@) == Some(u.sampler_address@)
    &&& (json_u64_field(line, "bytes"@) matches Some(x) && u.bytes == x as i64)
    &&& (json_u64_field(line, "packets"@) matches Some(x) && u.packets == x as i64)
    &&& (json_u64_field(line, "src_port"@) matches Some(x) && u.src_port == x as i64)
    &&& (json_u64_field(line, "dst_port"@) matches Some(x) && u.dst_port == x as i64)
    &&& (json_u64_field(line, "sequence_num"@) matches Some(x) && u.sequence_num == x as i64)
    &&& (json_u64_field(line, "sampling_rate"@) matches Some(x) && u.sampling_rate == x as i64)
    &&& (json_u64_field(line, "time_flow_start_ns"@) matches Some(x) && u.time_flow_start_ns
        == x as i64)
    &&& (json_u64_field(line, "time_flow_end_ns"@) matches Some(x) && u.time_flow_end_ns == x
        as i64)
    &&& (json_u64_field(line, "in_if"@) matches Some(x) && u.in_if == x as i64)
    &&& (json_u64_field(line, "out_if"@) matches Some(x) && u.out_if == x as i64)
    &&& (json_u64_field(line, "time_received_ns"@) matches Some(x) && u.timestamp == x as i64)
}

/// What one line did to the loop.
pub enum LineStep {
    /// Whitespace only: silently ignored.
    Blank,
    /// Malformed: logged by the caller, skipped, never fatal.
    ParseFailed,
    /// Decoded but out of scope: counted, not retained.
    FilteredOut,
    /// Decoded, in scope, accumulated; the batch is still below capacity.
    Accepted,
    /// Decoded, in scope, accumulated, and the batch reached capacity: the
    /// caller flushes these units and then paces.
    Flush(Vec<WriteUnit>),
}

/// The loop's whole mutable state: the pending batch and the running
/// counters.
pub struct IngestState {
    acc: BatchAccumulator,
    total_processed: u64,
    filtered_out: u64,
    parse_failed: u64,
}

impl IngestState {
    /// The units accumulated and not yet handed out, in arrival order.
    pub closed spec fn batch_view(&self) -> Seq<WriteUnit> {
        self.acc@
    }

    pub closed spec fn spec_capacity(&self) -> usize {
        self.acc.spec_capacity()
    }

    /// How many lines decoded to a record (in scope or not).
    pub closed spec fn spec_total(&self) -> u64 {
        self.total_processed
    }

    /// How many decoded lines the scope filter kept back.
    pub closed spec fn spec_filtered(&self) -> u64 {
        self.filtered_out
    }

    /// How many non-blank lines failed to decode.
    pub closed spec fn spec_parse_failed(&self) -> u64 {
        self.parse_failed
    }

    /// Between lines the pending batch is strictly below capacity: a batch
    /// that reaches it is handed out within the same step.
    pub closed spec fn wf(&self) -> bool {
        self.acc.wf() && self.batch_view().len() < self.spec_capacity()
    }

    pub fn new(capacity: usize) -> (s: IngestState)
        requires
            capacity >= 1,
        ensures
            s.wf(),
            s.spec_capacity() == capacity,
            s.batch_view() == Seq::<WriteUnit>::empty(),
            s.spec_total() == 0,
            s.spec_filtered() == 0,
            s.spec_parse_failed() == 0,
    {
        IngestState {
            acc: BatchAccumulator::new(capacity),
            total_processed: 0,
            filtered_out: 0,
            parse_failed: 0,
        }
    }

    pub fn total_processed(&self) -> (n: u64)
        ensures
            n == self.spec_total(),
    {
        self.total_processed
    }

    pub fn filtered_out(&self) -> (n: u64)
        ensures
            n == self.spec_filtered(),
    {
        self.filtered_out
    }

    pub fn parse_failed(&self) -> (n: u64)
        ensures
            n == self.spec_parse_failed(),
    {
        self.parse_failed
    }

    pub fn pending(&self) -> (n: usize)
        ensures
            n == self.batch_view().len(),
    {
        self.acc.len()
    }

    /// One step of the loop: classify `line`, accumulate its unit when it
    /// is in scope, and hand the batch out when that made it full.
    pub fn process_line(&mut self, line: &str) -> (step: LineStep)
        requires
            old(self).wf(),
            old(self).spec_total() < u64::MAX,
            old(self).spec_filtered() < u64::MAX,
            old(self).spec_parse_failed() < u64::MAX,
        ensures
            final(self).wf(),
            final(self).spec_capacity() == old(self).spec_capacity(),
            (if spec_is_blank(line@) {
                &&& step == LineStep::Blank
                &&& final(self).batch_view() == old(self).batch_view()
                &&& final(self).spec_total() == old(self).spec_total()
                &&& final(self).spec_filtered() == old(self).spec_filtered()
                &&& final(self).spec_parse_failed() == old(self).spec_parse_failed()
            } else if !spec_line_valid(line@) {
                &&& step == LineStep::ParseFailed
                &&& final(self).batch_view() == old(self).batch_view()
                &&& final(self).spec_total() == old(self).spec_total()
                &&& final(self).spec_filtered() == old(self).spec_filtered()
                &&& final(self).spec_parse_failed() == old(self).spec_parse_failed() + 1
            } else if !spec_is_private_ip(spec_src_addr(line@)) {
                &&& step == LineStep::FilteredOut
                &&& final(self).batch_view() == old(self).batch_view()
                &&& final(self).spec_total() == old(self).spec_total() + 1
                &&& final(self).spec_filtered() == old(self).spec_filtered() + 1
                &&& final(self).spec_parse_failed() == old(self).spec_parse_failed()
            } else {
                &&& final(self).spec_total() == old(self).spec_total() + 1
                &&& final(self).spec_filtered() == old(self).spec_filtered()
                &&& final(self).spec_parse_failed() == old(self).spec_parse_failed()
                &&& (if old(self).batch_view().len() + 1 == old(self).spec_capacity() {
                    &&& (step matches LineStep::Flush(v) && v@.len()
                        == old(self).spec_capacity() && v@.drop_last()
                        == old(self).batch_view() && unit_matches_line(v@.last(), line@))
                    &&& final(self).batch_view() == Seq::<WriteUnit>::empty()
                } else {
                    &&& step == LineStep::Accepted
                    &&& final(self).batch_view().len() == old(self).batch_view().len() + 1
                    &&& final(self).batch_view().drop_last() == old(self).batch_view()
                    &&& unit_matches_line(final(self).batch_view().last(), line@)
                })
            }),
    {
        if is_blank(line) {
            return LineStep::Blank;
        }
        match parse_record(line) {
            None => {
                self.parse_failed = self.parse_failed + 1;
                LineStep::ParseFailed
            },
            Some(rec) => {
                self.total_processed = self.total_processed + 1;
                if !is_private_ip(rec.src_addr.as_str()) {
                    self.filtered_out = self.filtered_out + 1;
                    return LineStep::FilteredOut;
                }
                let unit = flow_to_write_unit(&rec);
                proof {
                    assert(record_matches_line(rec, line@));
                    assert(unit_matches_record(unit, rec));
                }
                self.acc.append(unit);
                if self.acc.is_full() {
                    let v = self.acc.drain();
                    proof {
                        assert(v@.drop_last() =~= old(self).batch_view());
                    }
                    LineStep::Flush(v)
                } else {
                    LineStep::Accepted
                }
            },
        }
    }

    /// End of stream: the non-empty remainder, if any, is handed out for
    /// exactly one final flush; afterwards nothing is pending.
    pub fn finish(&mut self) -> (tail: Option<Vec<WriteUnit>>)
        requires
            old(self).wf(),
        ensures
            final(self).wf(),
            final(self).spec_capacity() == old(self).spec_capacity(),
            final(self).batch_view() == Seq::<WriteUnit>::empty(),
            final(self).spec_total() == old(self).spec_total(),
            final(self).spec_filtered() == old(self).spec_filtered(),
            final(self).spec_parse_failed() == old(self).spec_parse_failed(),
            (tail is Some <==> old(self).batch_view().len() > 0),
            (match tail {
                Some(v) => v@ == old(self).batch_view(),
                None => true,
            }),
    {
        if self.acc.len() > 0 {
            Some(self.acc.drain())
        } else {
            proof {
                assert(self.acc@ =~= Seq::<WriteUnit>::empty());
            }
            None
        }
    }
}

/// Between lines the pending batch is strictly below the configured
/// capacity — so the buffer never exceeds it at the instant the fullness
/// test is made.
pub proof fn lemma_pending_below_capacity(s: &IngestState)
    requires
        s.wf(),
    ensures
        s.batch_view().len() < s.spec_capacity(),
{
}

} // verus!
