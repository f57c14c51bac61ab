//! A whole run of the ingestion loop over a vector of lines, checked end to
//! end: every in-scope line's unit is offered for writing exactly once, in
//! arrival order, split into batches that respect the capacity, with the
//! remainder flushed once at end of stream.

use vstd::prelude::*;
use crate::ingest::{IngestState, LineStep, spec_line_decoded, spec_line_filtered,
    spec_line_in_scope, spec_line_parse_failed, unit_matches_line};
use crate::transform::WriteUnit;

verus! {

/// The views of a vector of lines.
pub open spec fn line_views(lines: Seq<String>) -> Seq<Seq<char>> {
    lines.map_values(|l: String| l@)
}

/// The views of a vector of batches.
pub open spec fn batch_views(batches: Seq<Vec<WriteUnit>>) -> Seq<Seq<WriteUnit>> {
    batches.map_values(|b: Vec<WriteUnit>| b@)
}

/// The in-scope lines of `ls`, in order.
pub open spec fn spec_in_scope_lines(ls: Seq<Seq<char>>) -> Seq<Seq<char>>
    decreases ls.len(),
{
    if ls.len() == 0 {
        Seq::empty()
    } else if spec_line_in_scope(ls.last()) {
        spec_in_scope_lines(ls.drop_last()).push(ls.last())
    } else {
        spec_in_scope_lines(ls.drop_last())
    }
}

/// How many lines of `ls` decode to a record.
pub open spec fn spec_count_decoded(ls: Seq<Seq<char>>) -> int
    decreases ls.len(),
{
    if ls.len() == 0 {
        0
    } else {
        spec_count_decoded(ls.drop_last()) + if spec_line_decoded(ls.last()) {
            1int
        } else {
            0int
        }
    }
}

/// How many lines of `ls` the scope filter keeps back.
pub open spec fn spec_count_filtered(ls: Seq<Seq<char>>) -> int
    decreases ls.len(),
{
    if ls.len() == 0 {
        0
    } else {
        spec_count_filtered(ls.drop_last()) + if spec_line_filtered(ls.last()) {
            1int
        } else {
            0int
        }
    }
}

/// How many non-blank lines of `ls` fail to decode.
pub open spec fn spec_count_parse_failed(ls: Seq<Seq<char>>) -> int
    decreases ls.len(),
{
    if ls.len() == 0 {
        0
    } else {
        spec_count_parse_failed(ls.drop_last()) + if spec_line_parse_failed(ls.last()) {
            1int
        } else {
            0int
        }
    }
}

proof fn lemma_counts_bounds(ls: Seq<Seq<char>>)
    ensures
        0 <= spec_count_decoded(ls) <= ls.len(),
        0 <= spec_count_filtered(ls) <= ls.len(),
        0 <= spec_count_parse_failed(ls) <= ls.len(),
    decreases ls.len(),
{
    if ls.len() > 0 {
        lemma_counts_bounds(ls.drop_last());
    }
}

/// All flushed batches, flattened in flush order.
pub open spec fn spec_concat(bs: Seq<Seq<WriteUnit>>) -> Seq<WriteUnit>
    decreases bs.len(),
{
    if bs.len() == 0 {
        Seq::empty()
    } else {
        spec_concat(bs.drop_last()) + bs.last()
    }
}

/// The units `us` are, one for one and in order, the write units of the
/// lines `ls`.
pub open spec fn units_match_lines(us: Seq<WriteUnit>, ls: Seq<Seq<char>>) -> bool {
    us.len() == ls.len() && forall|i: int|
        0 <= i < us.len() ==> unit_matches_line(#[trigger] us[i], ls[i])
}

proof fn lemma_in_scope_push(ls: Seq<Seq<char>>, l: Seq<char>)
    ensures
        spec_in_scope_lines(ls.push(l)) == if spec_line_in_scope(l) {
            spec_in_scope_lines(ls).push(l)
        } else {
            spec_in_scope_lines(ls)
        },
        spec_count_decoded(ls.push(l)) == spec_count_decoded(ls) + if spec_line_decoded(l) {
            1int
        } else {
            0int
        },
        spec_count_filtered(ls.push(l)) == spec_count_filtered(ls) + if spec_line_filtered(l) {
            1int
        } else {
            0int
        },
        spec_count_parse_failed(ls.push(l)) == spec_count_parse_failed(ls)
            + if spec_line_parse_failed(l) {
            1int
        } else {
            0int
        },
{
    assert(ls.push(l).drop_last() =~= ls);
    assert(ls.push(l).last() == l);
}

proof fn lemma_concat_push(bs: Seq<Seq<WriteUnit>>, b: Seq<WriteUnit>)
    ensures
        spec_concat(bs.push(b)) == spec_concat(bs) + b,
{
    assert(bs.push(b).drop_last() =~= bs);
    assert(bs.push(b).last() == b);
}

proof fn lemma_units_match_push(us: Seq<WriteUnit>, ls: Seq<Seq<char>>, u: WriteUnit, l: Seq<
    char,
>)
    requires
        units_match_lines(us, ls),
        unit_matches_line(u, l),
    ensures
        units_match_lines(us.push(u), ls.push(l)),
{
    assert forall|i: int| 0 <= i < us.push(u).len() implies unit_matches_line(
        #[trigger] us.push(u)[i],
        ls.push(l)[i],
    ) by {
        if i < us.len() {
            assert(us.push(u)[i] == us[i]);
            assert(ls.push(l)[i] == ls[i]);
        } else {
            assert(us.push(u)[i] == u);
            assert(ls.push(l)[i] == l);
        }
    }
}

/// The final summary of one whole run.
pub struct PipelineReport {
    /// Every batch handed to the dispatcher, in flush order: each full
    /// batch as the stream forced it out, then the non-empty remainder.
    pub batches: Vec<Vec<WriteUnit>>,
    /// How many lines decoded to a record.
    pub total_processed: u64,
    /// How many decoded lines the scope filter kept back.
    pub filtered_out: u64,
    /// How many non-blank lines failed to decode.
    pub parse_failed: u64,
}

/// Runs the whole loop over `lines` with the given batch capacity. The
/// batches together carry exactly the write units of the in-scope lines,
/// in arrival order — nothing is lost, duplicated or reordered on the way
/// to the dispatcher — and every batch is non-empty and within capacity.
pub fn run_pipeline(lines: &Vec<String>, capacity: usize) -> (r: PipelineReport)
    requires
        capacity >= 1,
        lines@.len() < u64::MAX,
    ensures
        ({
            let ls = line_views(lines@);
            &&& units_match_lines(spec_concat(batch_views(r.batches@)), spec_in_scope_lines(ls))
            &&& r.total_processed == spec_count_decoded(ls)
            &&& r.filtered_out == spec_count_filtered(ls)
            &&& r.parse_failed == spec_count_parse_failed(ls)
            &&& forall|j: int|
                0 <= j < r.batches@.len() ==> 1 <= (#[trigger] r.batches@[j])@.len() <= capacity
        }),
{
    let ghost ls = line_views(lines@);
    let mut st = IngestState::new(capacity);
    let mut batches: Vec<Vec<WriteUnit>> = Vec::new();
    let mut i: usize = 0;
    while i < lines.len()
        invariant
            st.wf(),
            st.spec_capacity() == capacity,
            capacity >= 1,
            ls == line_views(lines@),
            lines@.len() < u64::MAX,
            0 <= i <= lines@.len(),
            units_match_lines(
                spec_concat(batch_views(batches@)) + st.batch_view(),
                spec_in_scope_lines(ls.take(i as int)),
            ),
            st.spec_total() == spec_count_decoded(ls.take(i as int)),
            st.spec_filtered() == spec_count_filtered(ls.take(i as int)),
            st.spec_parse_failed() == spec_count_parse_failed(ls.take(i as int)),
            forall|j: int|
                0 <= j < batches@.len() ==> 1 <= (#[trigger] batches@[j])@.len() <= capacity,
        decreases lines@.len() - i,
    {
        proof {
            lemma_counts_bounds(ls.take(i as int));
            assert(ls.take(i as int).len() == i);
        }
        let ghost prev_units = spec_concat(batch_views(batches@)) + st.batch_view();
        let ghost prev_scope = spec_in_scope_lines(ls.take(i as int));
        let step = st.process_line(lines[i].as_str());
        proof {
            assert(ls.take(i + 1) =~= ls.take(i as int).push(ls[i as int]));
            assert(ls[i as int] == lines@[i as int]@);
            lemma_in_scope_push(ls.take(i as int), ls[i as int]);
        }
        match step {
            LineStep::Flush(v) => {
                let ghost ob = batches@;
                let ghost vv = v@;
                proof {
                    let l = ls[i as int];
                    assert(vv.drop_last().push(vv.last()) =~= vv);
                    lemma_units_match_push(prev_units, prev_scope, vv.last(), l);
                    assert(prev_units.push(vv.last()) =~= spec_concat(batch_views(ob)) + vv);
                }
                batches.push(v);
                proof {
                    assert(batch_views(batches@) =~= batch_views(ob).push(vv));
                    lemma_concat_push(batch_views(ob), vv);
                    assert(spec_concat(batch_views(batches@)) + st.batch_view()
                        =~= spec_concat(batch_views(ob)) + vv);
                }
            },
            LineStep::Accepted => {
                proof {
                    let l = ls[i as int];
                    lemma_units_match_push(prev_units, prev_scope, st.batch_view().last(), l);
                    assert(st.batch_view().drop_last().push(st.batch_view().last())
                        =~= st.batch_view());
                    assert(prev_units.push(st.batch_view().last()) =~= spec_concat(
                        batch_views(batches@),
                    ) + st.batch_view());
                }
            },
            _ => {
            },
        }
        i = i + 1;
    }
    proof {
        assert(ls.take(i as int) =~= ls);
    }
    let total_processed = st.total_processed();
    let filtered_out = st.filtered_out();
    let parse_failed = st.parse_failed();
    let ghost tail_units = st.batch_view();
    let ghost pre_units = spec_concat(batch_views(batches@)) + tail_units;
    proof {
        crate::ingest::lemma_pending_below_capacity(&st);
    }
    match st.finish() {
        Some(v) => {
            let ghost ob = batches@;
            let ghost vv = v@;
            batches.push(v);
            proof {
                assert(vv == tail_units);
                assert(batch_views(batches@) =~= batch_views(ob).push(vv));
                lemma_concat_push(batch_views(ob), vv);
                assert(spec_concat(batch_views(batches@)) =~= pre_units);
            }
        },
        None => {
            proof {
                assert(tail_units =~= Seq::<WriteUnit>::empty());
                assert(spec_concat(batch_views(batches@)) =~= pre_units);
            }
        },
    }
    PipelineReport { batches, total_processed, filtered_out, parse_failed }
}

} // verus!
