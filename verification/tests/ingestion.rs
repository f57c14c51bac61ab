use flowsink::batch::BatchAccumulator;
use flowsink::ingest::{IngestState, LineStep};
use flowsink::pipeline::run_pipeline;
use flowsink::record::parse_record;
use flowsink::transform::flow_to_write_unit;

fn flow_line(src_addr: &str, seq: u64) -> String {
    let mut l = String::from("{\"type\":\"SFLOW_5\",");
    l.push_str(&format!("\"time_received_ns\":{},\"sequence_num\":{},", 1000 + seq, seq));
    l.push_str("\"sampling_rate\":1,\"sampler_address\":\"192.0.2.9\",");
    l.push_str("\"time_flow_start_ns\":1,\"time_flow_end_ns\":2,");
    l.push_str("\"bytes\":10,\"packets\":1,");
    l.push_str(&format!("\"src_addr\":\"{}\",\"dst_addr\":\"10.0.0.2\",", src_addr));
    l.push_str("\"etype\":\"IPv4\",\"proto\":\"UDP\",");
    l.push_str("\"src_port\":1,\"dst_port\":2,\"in_if\":1,\"out_if\":1}");
    l
}

#[test]
fn accumulator_fills_and_drains_in_order() {
    let mut acc = BatchAccumulator::new(2);
    assert_eq!(acc.capacity(), 2);
    assert_eq!(acc.len(), 0);
    assert!(!acc.is_full());
    let a = flow_to_write_unit(&parse_record(&flow_line("10.0.0.1", 1)).unwrap());
    let b = flow_to_write_unit(&parse_record(&flow_line("10.0.0.1", 2)).unwrap());
    acc.append(a);
    assert!(!acc.is_full());
    acc.append(b);
    assert!(acc.is_full());
    assert_eq!(acc.len(), 2);
    let out = acc.drain();
    assert_eq!(out.len(), 2);
    assert_eq!(out[0].sequence_num, 1);
    assert_eq!(out[1].sequence_num, 2);
    assert_eq!(acc.len(), 0);
    assert!(!acc.is_full());
}

#[test]
fn line_steps_classify_and_count() {
    let mut st = IngestState::new(2);
    assert!(matches!(st.process_line(&flow_line("10.1.2.3", 1)), LineStep::Accepted));
    assert_eq!(st.pending(), 1);
    assert!(matches!(st.process_line("   "), LineStep::Blank));
    assert!(matches!(st.process_line("{ broken"), LineStep::ParseFailed));
    assert!(matches!(st.process_line(&flow_line("8.8.8.8", 2)), LineStep::FilteredOut));
    assert_eq!(st.pending(), 1);
    match st.process_line(&flow_line("192.168.0.5", 3)) {
        LineStep::Flush(v) => {
            assert_eq!(v.len(), 2);
            assert_eq!(v[0].sequence_num, 1);
            assert_eq!(v[1].sequence_num, 3);
        },
        _ => panic!("second accepted line must fill the batch"),
    }
    assert_eq!(st.pending(), 0);
    assert_eq!(st.total_processed(), 3);
    assert_eq!(st.filtered_out(), 1);
    assert_eq!(st.parse_failed(), 1);
    assert!(st.finish().is_none());
}

#[test]
fn end_of_stream_flushes_partial_batch_once() {
    let mut st = IngestState::new(10);
    assert!(matches!(st.process_line(&flow_line("10.9.9.9", 1)), LineStep::Accepted));
    assert!(matches!(st.process_line(&flow_line("172.16.5.5", 2)), LineStep::Accepted));
    let tail = st.finish().expect("a non-empty remainder must be flushed");
    assert_eq!(tail.len(), 2);
    assert_eq!(tail[0].sequence_num, 1);
    assert_eq!(tail[1].sequence_num, 2);
    assert!(st.finish().is_none());
}

#[test]
fn whole_run_offers_every_in_scope_record() {
    let lines = vec![
        flow_line("10.1.2.3", 1),
        String::from("  "),
        String::from("not json"),
        flow_line("8.8.8.8", 2),
        flow_line("172.31.0.1", 3),
        flow_line("192.168.1.1", 4),
    ];
    let report = run_pipeline(&lines, 2);
    assert_eq!(report.total_processed, 4);
    assert_eq!(report.filtered_out, 1);
    assert_eq!(report.parse_failed, 1);
    assert_eq!(report.batches.len(), 2);
    assert_eq!(report.batches[0].len(), 2);
    assert_eq!(report.batches[1].len(), 1);
    assert_eq!(report.batches[0][0].sequence_num, 1);
    assert_eq!(report.batches[0][0].src_addr, "10.1.2.3");
    assert_eq!(report.batches[0][1].sequence_num, 3);
    assert_eq!(report.batches[1][0].sequence_num, 4);
}

#[test]
fn whole_run_with_nothing_in_scope() {
    let lines = vec![flow_line("8.8.8.8", 1), String::from("")];
    let report = run_pipeline(&lines, 3);
    assert_eq!(report.total_processed, 1);
    assert_eq!(report.filtered_out, 1);
    assert_eq!(report.parse_failed, 0);
    assert!(report.batches.is_empty());
}
