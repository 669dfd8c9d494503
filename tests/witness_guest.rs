use prover::{
    build_witness, conclude, read_public_output, read_request, run_guest, Evaluator, GuestContext,
    GuestError, LifecycleError, ReplayEvaluator,
};
#[test]
fn witness_is_minified_in_source_key_order() {
    let w = build_witness(7, "{\n  \"b\": 1,\n  \"a\": 2\n}\n").unwrap();
    assert_eq!(w.parameter(), 7);
    assert_eq!(w.payload(), "{\"b\":1,\"a\":2}");
    let segs = w.segments();
    assert_eq!(segs.len(), 2);
    assert_eq!(segs[0], vec![7u8, 0, 0, 0]);
    assert_eq!(segs[1], b"{\"b\":1,\"a\":2}".to_vec());
}

#[test]
fn parameter_is_four_little_endian_bytes() {
    let w = build_witness(0x0102_0304, "[1, 2 ,3]").unwrap();
    let segs = w.segments();
    assert_eq!(segs[0], vec![4u8, 3, 2, 1]);
    assert_eq!(segs[1], b"[1,2,3]".to_vec());
}

#[test]
fn guest_receives_exact_parameter_and_bytes() {
    let w = build_witness(7, "{\"b\": 1, \"a\": 2}").unwrap();
    let mut stub = ReplayEvaluator::new();
    stub.insert(7, "{\"b\":1,\"a\":2}", 13);
    let mut ctx = GuestContext::new(w.segments());
    assert_eq!(run_guest(&mut ctx, &stub), Ok(13));
    assert_eq!(ctx.public_output(), Some(13));

    // Any other parameter or byte string finds no record.
    let mut other = ReplayEvaluator::new();
    other.insert(7, "{\"a\":2,\"b\":1}", 13);
    other.insert(8, "{\"b\":1,\"a\":2}", 13);
    other.insert(7, "{\"b\": 1, \"a\": 2}", 13);
    let mut ctx2 = GuestContext::new(w.segments());
    assert_eq!(run_guest(&mut ctx2, &other), Err(GuestError::Evaluation));
    assert_eq!(ctx2.public_output(), None);
}

#[test]
fn replay_answers_first_record() {
    let mut e = ReplayEvaluator::new();
    assert_eq!(e.evaluate(1, "{}"), None);
    e.insert(1, "{}", 5);
    e.insert(1, "{}", 6);
    e.insert(2, "{}", 7);
    assert_eq!(e.evaluate(1, "{}"), Some(5));
    assert_eq!(e.evaluate(2, "{}"), Some(7));
    assert_eq!(e.evaluate(1, "[]"), None);
}

#[test]
fn malformed_json_is_a_decode_error() {
    assert!(matches!(build_witness(7, "{\"a\":"), Err(LifecycleError::Decode)));
    assert!(matches!(build_witness(1, ""), Err(LifecycleError::Decode)));
    assert!(matches!(build_witness(1, "{} {}"), Err(LifecycleError::Decode)));
}

#[test]
fn same_inputs_give_same_public_output() {
    let a = build_witness(3, "{\"x\": [1, 2]}").unwrap();
    let b = build_witness(3, "{\"x\":[1,2]}").unwrap();
    let mut stub = ReplayEvaluator::new();
    stub.insert(3, "{\"x\":[1,2]}", 432140);
    let mut c1 = GuestContext::new(a.segments());
    let mut c2 = GuestContext::new(b.segments());
    assert_eq!(run_guest(&mut c1, &stub), Ok(432140));
    assert_eq!(run_guest(&mut c2, &stub), Ok(432140));
    assert_eq!(c1.public_values(), c2.public_values());
}

#[test]
fn guest_stops_on_empty_stream() {
    let mut ctx = GuestContext::new(Vec::new());
    let mut stub = ReplayEvaluator::new();
    stub.insert(0, "", 1);
    assert_eq!(run_guest(&mut ctx, &stub), Err(GuestError::StreamExhausted));
    assert_eq!(ctx.public_output(), None);
}

#[test]
fn guest_stops_on_wrong_parameter_width() {
    let mut ctx = GuestContext::new(vec![vec![1u8, 0, 0], b"{}".to_vec()]);
    assert!(matches!(read_request(&mut ctx), Err(GuestError::BadFixedWidth)));
}

#[test]
fn guest_stops_on_missing_payload() {
    let mut ctx = GuestContext::new(vec![vec![1u8, 0, 0, 0]]);
    let stub = ReplayEvaluator::new();
    assert_eq!(run_guest(&mut ctx, &stub), Err(GuestError::StreamExhausted));
}

#[test]
fn guest_stops_on_invalid_utf8() {
    let mut ctx = GuestContext::new(vec![vec![1u8, 0, 0, 0], vec![0x7b, 0xff, 0x7d]]);
    let stub = ReplayEvaluator::new();
    assert_eq!(run_guest(&mut ctx, &stub), Err(GuestError::InvalidUtf8));
    assert_eq!(ctx.public_output(), None);
}

#[test]
fn rejected_transition_commits_nothing() {
    let w = build_witness(1, "{}").unwrap();
    let mut ctx = GuestContext::new(w.segments());
    assert_eq!(run_guest(&mut ctx, &ReplayEvaluator::new()), Err(GuestError::Evaluation));
    assert_eq!(ctx.public_output(), None);
    assert!(ctx.public_values().is_empty());
}

#[test]
fn output_is_committed_once() {
    let mut ctx = GuestContext::new(Vec::new());
    assert_eq!(ctx.commit_once(5), Ok(()));
    assert_eq!(ctx.commit_once(6), Err(GuestError::AlreadyCommitted));
    assert_eq!(ctx.public_output(), Some(5));
    assert_eq!(conclude(&mut ctx, Some(9)), Err(GuestError::AlreadyCommitted));
    assert_eq!(conclude(&mut ctx, None), Err(GuestError::Evaluation));
    assert_eq!(ctx.public_output(), Some(5));
}

#[test]
fn read_fixed_and_segment_advance() {
    let mut ctx = GuestContext::new(vec![vec![0xff, 0xff, 0xff, 0xff], vec![9u8]]);
    assert_eq!(ctx.read_fixed(), Ok(u32::MAX));
    assert_eq!(ctx.read_segment(), Ok(vec![9u8]));
    assert_eq!(ctx.read_segment(), Err(GuestError::StreamExhausted));
    assert_eq!(ctx.read_fixed(), Err(GuestError::StreamExhausted));
}

#[test]
fn public_output_reads_back() {
    let mut ctx = GuestContext::new(Vec::new());
    ctx.commit_once(432140).unwrap();
    let bytes = ctx.public_values();
    assert_eq!(bytes, vec![0x0c, 0x98, 0x06, 0, 0, 0, 0, 0]);
    assert_eq!(read_public_output(&bytes), Ok(432140));
    assert_eq!(read_public_output(&bytes[..7]), Err(LifecycleError::Decode));
    assert_eq!(read_public_output(&[]), Err(LifecycleError::Decode));
}
