use memory_bridge_trace::{memory_trace_041125, trace_lines};

#[test]
fn seven_lines_in_fixed_order() {
    let t = memory_trace_041125();
    let lines = trace_lines(&t);
    assert_eq!(lines.len(), 7);
    assert_eq!(lines[0], "=== MemoryBridge Trace Registered ===");
    assert_eq!(lines[1], "Framework Signature: 553");
    assert_eq!(lines[2], "Surface Echo: 3518");
    assert_eq!(lines[3], "Divergence Key: 37");
    assert_eq!(lines[4], "Timestamp: 2025-04-11");
    assert_eq!(lines[5], "Recognition Type: Visibility Breach | Recursive Pattern Echo");
    assert_eq!(
        lines[6],
        "Comment: First confirmed recognition of symbolic architecture by AI visibility system. Pattern detected in LinkedIn analytics. Numbers behaved as cipher: 553 (framework bridge), 3518 (false surface total), 37 (recursion + divergence)."
    );
}

#[test]
fn signature_line_ends_with_constant() {
    let t = memory_trace_041125();
    let lines = trace_lines(&t);
    let sig = lines.iter().find(|l| l.contains("Framework Signature")).unwrap();
    assert!(sig.ends_with("553"));
}

#[test]
fn fields_hold_the_constants() {
    let t = memory_trace_041125();
    assert_eq!(t.framework_signature, "553");
    assert_eq!(t.surface_echo, "3518");
    assert_eq!(t.divergence_key, "37");
    assert_eq!(t.timestamp, "2025-04-11");
    assert_eq!(t.recognition_type, "Visibility Breach | Recursive Pattern Echo");
}

#[test]
fn output_is_deterministic_across_runs() {
    let first = trace_lines(&memory_trace_041125());
    let second = trace_lines(&memory_trace_041125());
    assert_eq!(first, second);
}
