use flowsink::record::parse_record;
use flowsink::transform::flow_to_write_unit;

fn flow_line(src_addr: &str, src_port: u64) -> String {
    let mut l = String::from("{\"type\":\"SFLOW_5\",\"time_received_ns\":1700000000000000001,");
    l.push_str("\"sequence_num\":42,\"sampling_rate\":512,");
    l.push_str("\"sampler_address\":\"192.0.2.9\",");
    l.push_str("\"time_flow_start_ns\":1699999999000000000,");
    l.push_str("\"time_flow_end_ns\":1699999999500000000,");
    l.push_str("\"bytes\":1250,\"packets\":3,");
    l.push_str(&format!("\"src_addr\":\"{}\",\"dst_addr\":\"198.51.100.7\",", src_addr));
    l.push_str("\"etype\":\"IPv4\",\"proto\":\"TCP\",");
    l.push_str(&format!("\"src_port\":{},\"dst_port\":443,\"in_if\":2,\"out_if\":3}}", src_port));
    l
}

#[test]
fn valid_line_decodes() {
    let line = flow_line("10.1.2.3", 50123);
    let rec = parse_record(&line).expect("line should decode");
    assert_eq!(rec.flow_type, "SFLOW_5");
    assert_eq!(rec.time_received_ns, 1700000000000000001);
    assert_eq!(rec.sequence_num, 42);
    assert_eq!(rec.sampling_rate, 512);
    assert_eq!(rec.sampler_address, "192.0.2.9");
    assert_eq!(rec.bytes, 1250);
    assert_eq!(rec.packets, 3);
    assert_eq!(rec.src_addr, "10.1.2.3");
    assert_eq!(rec.dst_addr, "198.51.100.7");
    assert_eq!(rec.etype, "IPv4");
    assert_eq!(rec.proto, "TCP");
    assert_eq!(rec.src_port, 50123);
    assert_eq!(rec.dst_port, 443);
    assert_eq!(rec.in_if, 2);
    assert_eq!(rec.out_if, 3);
}

#[test]
fn extra_fields_are_ignored() {
    let line = flow_line("10.1.2.3", 1).replace(
        "\"etype\":\"IPv4\"",
        "\"etype\":\"IPv4\",\"src_mac\":\"aa:bb:cc:dd:ee:ff\",\"src_vlan\":7",
    );
    assert!(parse_record(&line).is_some());
}

#[test]
fn missing_field_rejected() {
    let line = flow_line("10.1.2.3", 1).replace("\"bytes\":1250,", "");
    assert!(parse_record(&line).is_none());
}

#[test]
fn wrong_type_rejected() {
    let line = flow_line("10.1.2.3", 1).replace("\"bytes\":1250", "\"bytes\":\"1250\"");
    assert!(parse_record(&line).is_none());
    let line = flow_line("10.1.2.3", 1).replace("\"proto\":\"TCP\"", "\"proto\":6");
    assert!(parse_record(&line).is_none());
    let line = flow_line("10.1.2.3", 1).replace("\"packets\":3", "\"packets\":-3");
    assert!(parse_record(&line).is_none());
}

#[test]
fn out_of_range_port_rejected() {
    assert!(parse_record(&flow_line("10.1.2.3", 65535)).is_some());
    assert!(parse_record(&flow_line("10.1.2.3", 65536)).is_none());
}

#[test]
fn non_json_rejected() {
    assert!(parse_record("").is_none());
    assert!(parse_record("not json").is_none());
    assert!(parse_record("[1,2,3]").is_none());
    assert!(parse_record("17").is_none());
    assert!(parse_record("{\"type\":\"SFLOW_5\"}").is_none());
}

#[test]
fn transform_carries_fields_over() {
    let line = flow_line("192.168.9.9", 8080);
    let rec = parse_record(&line).expect("line should decode");
    let unit = flow_to_write_unit(&rec);
    assert_eq!(unit.measurement, "netflow");
    assert_eq!(unit.flow_type, "SFLOW_5");
    assert_eq!(unit.src_addr, "192.168.9.9");
    assert_eq!(unit.dst_addr, "198.51.100.7");
    assert_eq!(unit.proto, "TCP");
    assert_eq!(unit.sampler_address, "192.0.2.9");
    assert_eq!(unit.bytes, 1250);
    assert_eq!(unit.packets, 3);
    assert_eq!(unit.src_port, 8080);
    assert_eq!(unit.dst_port, 443);
    assert_eq!(unit.sequence_num, 42);
    assert_eq!(unit.sampling_rate, 512);
    assert_eq!(unit.time_flow_start_ns, 1699999999000000000);
    assert_eq!(unit.time_flow_end_ns, 1699999999500000000);
    assert_eq!(unit.in_if, 2);
    assert_eq!(unit.out_if, 3);
    assert_eq!(unit.timestamp, 1700000000000000001);
}

#[test]
fn transform_wraps_wide_counters() {
    let line = flow_line("10.0.0.1", 1).replace(
        "\"bytes\":1250",
        "\"bytes\":18446744073709551615",
    );
    let rec = parse_record(&line).expect("line should decode");
    let unit = flow_to_write_unit(&rec);
    assert_eq!(unit.bytes, u64::MAX as i64);
    assert_eq!(unit.bytes, -1);
}
