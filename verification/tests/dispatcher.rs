use flowsink::dispatch::{
    dispatch_batch, DispatchOutcome, DispatchStep, RetryPolicy, SinkResponse,
};
use flowsink::record::parse_record;
use flowsink::transform::{flow_to_write_unit, WriteUnit};

fn sample_batch(n: u64) -> Vec<WriteUnit> {
    let mut batch = Vec::new();
    let mut k: u64 = 0;
    while k < n {
        let mut l = String::from("{\"type\":\"SFLOW_5\",");
        l.push_str(&format!("\"time_received_ns\":{},\"sequence_num\":1,", k + 1));
        l.push_str("\"sampling_rate\":1,\"sampler_address\":\"192.0.2.9\",");
        l.push_str("\"time_flow_start_ns\":1,\"time_flow_end_ns\":2,");
        l.push_str("\"bytes\":10,\"packets\":1,");
        l.push_str("\"src_addr\":\"10.0.0.1\",\"dst_addr\":\"10.0.0.2\",");
        l.push_str("\"etype\":\"IPv4\",\"proto\":\"UDP\",");
        l.push_str("\"src_port\":1,\"dst_port\":2,\"in_if\":1,\"out_if\":1}");
        let rec = parse_record(&l).expect("line should decode");
        batch.push(flow_to_write_unit(&rec));
        k += 1;
    }
    batch
}

#[test]
fn accepted_batch_takes_one_call() {
    let policy = RetryPolicy { attempts: 3, delay_ms: 1000 };
    let batch = sample_batch(4);
    let responses = vec![SinkResponse::Accepted, SinkResponse::Accepted, SinkResponse::Accepted];
    let report = dispatch_batch(&policy, &batch, &responses);
    assert_eq!(report.calls, 1);
    assert!(report.waits.is_empty());
    assert!(matches!(report.outcome, DispatchOutcome::Delivered));
}

#[test]
fn two_failures_then_success() {
    let policy = RetryPolicy { attempts: 3, delay_ms: 250 };
    let batch = sample_batch(2);
    let responses = vec![
        SinkResponse::Rejected(String::from("connection refused")),
        SinkResponse::Rejected(String::from("timeout")),
        SinkResponse::Accepted,
    ];
    let report = dispatch_batch(&policy, &batch, &responses);
    assert_eq!(report.calls, 3);
    assert_eq!(report.waits, vec![250, 250]);
    assert!(matches!(report.outcome, DispatchOutcome::Delivered));
}

#[test]
fn exhaustion_names_batch_size_and_last_error() {
    let policy = RetryPolicy { attempts: 4, delay_ms: 50 };
    let batch = sample_batch(7);
    let responses = vec![
        SinkResponse::Rejected(String::from("boom 1")),
        SinkResponse::Rejected(String::from("boom 2")),
        SinkResponse::Rejected(String::from("boom 3")),
        SinkResponse::Rejected(String::from("boom 4")),
    ];
    let report = dispatch_batch(&policy, &batch, &responses);
    assert_eq!(report.calls, 4);
    assert_eq!(report.waits, vec![50, 50, 50]);
    match report.outcome {
        DispatchOutcome::Failed(f) => {
            assert_eq!(f.attempts, 4);
            assert_eq!(f.batch_size, 7);
            assert_eq!(f.last_error, "boom 4");
        },
        DispatchOutcome::Delivered => panic!("dispatch should have failed"),
    }
}

#[test]
fn single_attempt_policy_fails_without_waiting() {
    let policy = RetryPolicy { attempts: 1, delay_ms: 9999 };
    let batch = sample_batch(1);
    let responses = vec![SinkResponse::Rejected(String::from("down"))];
    let report = dispatch_batch(&policy, &batch, &responses);
    assert_eq!(report.calls, 1);
    assert!(report.waits.is_empty());
    match report.outcome {
        DispatchOutcome::Failed(f) => {
            assert_eq!(f.batch_size, 1);
            assert_eq!(f.last_error, "down");
        },
        DispatchOutcome::Delivered => panic!("dispatch should have failed"),
    }
}

#[test]
fn decide_steps() {
    let policy = RetryPolicy { attempts: 3, delay_ms: 700 };
    assert!(matches!(
        policy.decide(1, 5, SinkResponse::Accepted),
        DispatchStep::Delivered
    ));
    assert!(matches!(
        policy.decide(1, 5, SinkResponse::Rejected(String::from("e"))),
        DispatchStep::RetryAfter(700)
    ));
    match policy.decide(3, 5, SinkResponse::Rejected(String::from("last"))) {
        DispatchStep::Exhausted(f) => {
            assert_eq!(f.attempts, 3);
            assert_eq!(f.batch_size, 5);
            assert_eq!(f.last_error, "last");
        },
        _ => panic!("third failed attempt must exhaust"),
    }
}
