use distaff::bytes::digest_from_elements;
use distaff::{
    bind_trace, get_last_state, validate, Action, Error, ExecutionProver, ExecutionTrace,
    FieldExtension, HashFunction, Program, ProgramInputs, ProofOptions, PublicInputs, Run, Stage,
    TraceInfo, TraceMetadata, TraceState, MAX_OUTPUTS, MIN_TRACE_LENGTH,
};

const CTX: usize = 1;
const LOOPS: usize = 1;
const STACK: usize = 8;
const WIDTH: usize = 15 + CTX + LOOPS + STACK;
const HASH0: u128 = 0x0102_0304_0506_0708_090a_0b0c_0d0e_0f10;
const HASH1: u128 = 0xfedc_ba98_7654_3210_0123_4567_89ab_cdef;

fn expected_hash() -> [u8; 32] {
    let mut out = [0u8; 32];
    out[..16].copy_from_slice(&HASH0.to_le_bytes());
    out[16..].copy_from_slice(&HASH1.to_le_bytes());
    out
}

fn row(step: usize, hash: (u128, u128), stack: &[u128]) -> Vec<u128> {
    let mut r = vec![0u128; WIDTH];
    r[0] = step as u128;
    r[1] = hash.0;
    r[2] = hash.1;
    r[15] = 7;
    r[16] = 9;
    for (i, v) in stack.iter().enumerate() {
        r[15 + CTX + LOOPS + i] = *v;
    }
    r
}

fn trace_of(len: usize, first: &[u128], last: &[u128], hash: (u128, u128)) -> ExecutionTrace {
    let mut rows = Vec::new();
    for i in 0..len {
        let stack = if i == 0 { first } else if i + 1 == len { last } else { &[][..] };
        let h = if i + 1 == len { hash } else { (0, 0) };
        rows.push(row(i, h, stack));
    }
    ExecutionTrace::new(WIDTH, vec![CTX as u8, LOOPS as u8], rows).unwrap()
}

fn good_trace() -> ExecutionTrace {
    trace_of(MIN_TRACE_LENGTH, &[1, 2, 3], &[5, 2], (HASH0, HASH1))
}

fn options() -> ProofOptions {
    ProofOptions {
        num_queries: 28,
        blowup_factor: 8,
        grinding_factor: 0,
        hash_fn: HashFunction::Blake3_256,
        field_extension: FieldExtension::Base,
    }
}

#[test]
fn metadata_from_trace_info() {
    let info = TraceInfo { width: WIDTH, length: 16, meta: vec![1, 1] };
    let m = TraceMetadata::from_trace_info(&info).unwrap();
    assert_eq!(m, TraceMetadata { ctx_depth: 1, loop_depth: 1, stack_depth: 8 });
    let info = TraceInfo { width: 40, length: 16, meta: vec![2, 3] };
    let m = TraceMetadata::from_trace_info(&info).unwrap();
    assert_eq!(m.stack_depth, 20);
}

#[test]
fn metadata_rejects_bad_layout() {
    assert!(TraceMetadata::from_trace_info(&TraceInfo { width: WIDTH, length: 1, meta: vec![1] })
        .is_none());
    assert!(TraceMetadata::from_trace_info(&TraceInfo { width: WIDTH, length: 1, meta: vec![2, 1] })
        .is_none());
    assert!(TraceMetadata::from_trace_info(&TraceInfo { width: 3, length: 1, meta: vec![0, 0] })
        .is_none());
}

#[test]
fn trace_new_checks_shape() {
    assert!(ExecutionTrace::new(WIDTH, vec![1, 1], vec![]).is_none());
    assert!(ExecutionTrace::new(WIDTH, vec![1, 1], vec![vec![0; WIDTH], vec![0; WIDTH - 1]])
        .is_none());
    assert!(ExecutionTrace::new(WIDTH, vec![9, 9], vec![vec![0; WIDTH]]).is_none());
    let t = good_trace();
    assert_eq!(t.width(), WIDTH);
    assert_eq!(t.length(), MIN_TRACE_LENGTH);
    let info = t.get_info();
    assert_eq!((info.width, info.length, info.meta), (WIDTH, MIN_TRACE_LENGTH, vec![1, 1]));
}

#[test]
fn read_row_into_copies_the_row() {
    let t = good_trace();
    let mut buf = vec![0u128; WIDTH];
    t.read_row_into(0, &mut buf);
    assert_eq!(buf, row(0, (0, 0), &[1, 2, 3]));
    t.read_row_into(MIN_TRACE_LENGTH - 1, &mut buf);
    assert_eq!(buf, row(MIN_TRACE_LENGTH - 1, (HASH0, HASH1), &[5, 2]));
}

#[test]
fn row_decoder_accessors() {
    let r = row(11, (HASH0, HASH1), &[4, 5, 6]);
    let s = TraceState::from_slice(CTX, LOOPS, STACK, r.clone());
    assert_eq!(s.op_counter(), 11);
    assert_eq!(s.ctx_stack_value(0), 7);
    assert_eq!(s.loop_stack_value(0), 9);
    assert_eq!(s.user_stack_depth(), STACK);
    assert_eq!(s.user_stack_value(1), 5);
    assert_eq!(s.user_stack_top(0), Vec::<u128>::new());
    assert_eq!(s.user_stack_top(4), vec![4, 5, 6, 0]);
    assert_eq!(s.program_hash(), expected_hash());
    assert_eq!(s.into_row(), r);
}

#[test]
fn digest_is_little_endian_elements() {
    let d = digest_from_elements(0x1234, u128::MAX);
    assert_eq!(d[0], 0x34);
    assert_eq!(d[1], 0x12);
    assert!(d[2..16].iter().all(|b| *b == 0));
    assert!(d[16..].iter().all(|b| *b == 0xff));
}

#[test]
fn last_state_of_trace() {
    let t = good_trace();
    let s = get_last_state(&t);
    assert_eq!(s.op_counter(), (MIN_TRACE_LENGTH - 1) as u128);
    assert_eq!(s.user_stack_top(2), vec![5, 2]);
}

#[test]
fn validate_accepts_matching_trace() {
    let t = good_trace();
    assert_eq!(validate(&t, &expected_hash(), &[1, 2, 3], &[5, 2]), Ok(()));
    assert_eq!(validate(&t, &expected_hash(), &[], &[]), Ok(()));
}

#[test]
fn validate_rejects_short_trace() {
    let t = trace_of(MIN_TRACE_LENGTH - 1, &[1, 2, 3], &[5, 2], (HASH0, HASH1));
    assert_eq!(validate(&t, &expected_hash(), &[1, 2, 3], &[5, 2]), Err(Error::TraceTooShort));
}

#[test]
fn short_trace_rejected_even_when_nothing_else_matches() {
    let t = trace_of(2, &[1], &[1], (1, 1));
    assert_eq!(validate(&t, &expected_hash(), &[9, 9], &[8]), Err(Error::TraceTooShort));
}

#[test]
fn validate_rejects_other_program() {
    let t = good_trace();
    let mut other = expected_hash();
    other[31] ^= 1;
    assert_eq!(validate(&t, &other, &[1, 2, 3], &[5, 2]), Err(Error::ProgramHashMismatch));
    let t = trace_of(MIN_TRACE_LENGTH, &[1, 2, 3], &[5, 2], (HASH0, HASH1 + 1));
    assert_eq!(validate(&t, &expected_hash(), &[1, 2, 3], &[5, 2]), Err(Error::ProgramHashMismatch));
}

#[test]
fn validate_rejects_other_inputs() {
    let t = good_trace();
    assert_eq!(validate(&t, &expected_hash(), &[1, 2, 4], &[5, 2]), Err(Error::StackInputMismatch));
    let long = [1u128, 2, 3, 0, 0, 0, 0, 0, 0];
    assert_eq!(validate(&t, &expected_hash(), &long, &[5, 2]), Err(Error::StackInputMismatch));
}

#[test]
fn validate_rejects_other_outputs() {
    let t = good_trace();
    assert_eq!(validate(&t, &expected_hash(), &[1, 2, 3], &[5, 3]), Err(Error::StackOutputMismatch));
}

#[test]
fn tampered_output_fails_binding() {
    let t = good_trace();
    let program = Program::new(expected_hash());
    let inputs = ProgramInputs::from_public(&[1, 2, 3]);
    let (outputs, pi) = bind_trace(&t, &program, &inputs, 2).unwrap();
    for i in 0..outputs.len() {
        let mut tampered = pi.outputs().clone();
        tampered[i] += 1;
        assert_eq!(
            validate(&t, pi.program_hash(), pi.inputs(), &tampered),
            Err(Error::StackOutputMismatch)
        );
        let forged = PublicInputs::new(*pi.program_hash(), pi.inputs(), &tampered);
        assert!(!forged.same_as(&pi));
    }
}

#[test]
fn outputs_equal_bound_statement() {
    let program = Program::new(expected_hash());
    let inputs = ProgramInputs::new(&[1, 2, 3], &[42], &[]);
    let (outputs, pi) = bind_trace(&good_trace(), &program, &inputs, 2).unwrap();
    assert_eq!(outputs, vec![5, 2]);
    assert_eq!(pi.outputs(), &vec![5, 2]);
    assert_eq!(pi.inputs(), &vec![1, 2, 3]);
    assert_eq!(pi.program_hash(), &expected_hash());
}

#[test]
fn bind_rejects_too_many_outputs() {
    let program = Program::new(expected_hash());
    let inputs = ProgramInputs::from_public(&[1, 2, 3]);
    let r = bind_trace(&good_trace(), &program, &inputs, MAX_OUTPUTS + 1);
    assert!(matches!(r, Err(Error::OutputCountExceeded)));
    let (outputs, _) = bind_trace(&good_trace(), &program, &inputs, MAX_OUTPUTS).unwrap();
    assert_eq!(outputs, vec![5, 2, 0, 0, 0, 0, 0, 0]);
}

#[test]
fn run_refuses_too_many_outputs_before_execution() {
    let (run, action) = Run::start(
        Program::new(expected_hash()),
        ProgramInputs::from_public(&[1, 2, 3]),
        MAX_OUTPUTS + 1,
        options(),
    );
    assert!(matches!(action, Action::Fail(Error::OutputCountExceeded)));
    assert_eq!(run.stage(), Stage::Failed);
}

fn run_to_statement() -> (Run, PublicInputs) {
    let (mut run, action) = Run::start(
        Program::new(expected_hash()),
        ProgramInputs::from_public(&[1, 2, 3]),
        2,
        options(),
    );
    assert!(matches!(action, Action::Execute));
    assert_eq!(run.stage(), Stage::NotStarted);
    match run.on_executed(&good_trace()) {
        Action::Prove(pi) => (run, pi),
        other => panic!("unexpected action {:?}", other),
    }
}

#[test]
fn run_goes_through_every_stage() {
    let (mut run, pi) = run_to_statement();
    assert_eq!(run.stage(), Stage::Bound);
    assert_eq!(pi.outputs(), &vec![5, 2]);
    assert_eq!(run.options(), &options());
    match run.on_proved() {
        Action::Finish(outputs) => assert_eq!(outputs, vec![5, 2]),
        other => panic!("unexpected action {:?}", other),
    }
    assert_eq!(run.stage(), Stage::Proved);
}

#[test]
fn run_twice_binds_one_statement() {
    let (_, a) = run_to_statement();
    let (_, b) = run_to_statement();
    assert!(a.same_as(&b));
}

#[test]
fn run_stops_on_bad_trace() {
    let (mut run, _) = Run::start(
        Program::new(expected_hash()),
        ProgramInputs::from_public(&[1, 2, 3]),
        2,
        options(),
    );
    let bad = trace_of(MIN_TRACE_LENGTH, &[1, 2, 3], &[5, 2], (HASH0 + 1, HASH1));
    assert!(matches!(run.on_executed(&bad), Action::Fail(Error::ProgramHashMismatch)));
    assert_eq!(run.stage(), Stage::Failed);
}

#[test]
fn run_passes_engine_failures_on() {
    let (mut run, _) = Run::start(
        Program::new(expected_hash()),
        ProgramInputs::from_public(&[]),
        1,
        options(),
    );
    match run.on_execution_failed("tape exhausted".to_string()) {
        Action::Fail(e) => assert_eq!(e, Error::ExecutionFailure("tape exhausted".to_string())),
        other => panic!("unexpected action {:?}", other),
    }
    let (mut run, _) = run_to_statement();
    match run.on_proving_failed("out of memory".to_string()) {
        Action::Fail(e) => assert_eq!(e, Error::ProvingFailure("out of memory".to_string())),
        other => panic!("unexpected action {:?}", other),
    }
    assert_eq!(run.stage(), Stage::Failed);
}

#[test]
fn execution_prover_checks_trace() {
    let t = good_trace();
    let p = ExecutionProver::new(options(), expected_hash(), vec![1, 2, 3], vec![5, 2]);
    assert!(p.are_inputs_valid(&t));
    assert!(p.are_outputs_valid(&t));
    assert_eq!(p.options(), &options());
    let pi = p.get_pub_inputs(&t).unwrap();
    assert_eq!(pi.program_hash(), &expected_hash());
    assert_eq!(pi.inputs(), &vec![1, 2, 3]);
    assert_eq!(pi.outputs(), &vec![5, 2]);

    let p = ExecutionProver::new(options(), expected_hash(), vec![3, 2, 1], vec![5, 2]);
    assert!(!p.are_inputs_valid(&t));
    assert!(matches!(p.get_pub_inputs(&t), Err(Error::StackInputMismatch)));
    let p = ExecutionProver::new(options(), expected_hash(), vec![1, 2, 3], vec![2, 5]);
    assert!(!p.are_outputs_valid(&t));
    assert!(matches!(p.get_pub_inputs(&t), Err(Error::StackOutputMismatch)));
    let p = ExecutionProver::new(options(), expected_hash(), vec![], vec![0; MAX_OUTPUTS + 1]);
    assert!(matches!(p.get_pub_inputs(&t), Err(Error::OutputCountExceeded)));
    let short = trace_of(4, &[1, 2, 3], &[5, 2], (HASH0, HASH1));
    let p = ExecutionProver::new(options(), expected_hash(), vec![1, 2, 3], vec![5, 2]);
    assert!(matches!(p.get_pub_inputs(&short), Err(Error::TraceTooShort)));
}

#[test]
fn execution_prover_rejects_other_program() {
    let t = trace_of(MIN_TRACE_LENGTH, &[1, 2, 3], &[5, 2], (HASH0, HASH1 + 1));
    let p = ExecutionProver::new(options(), expected_hash(), vec![1, 2, 3], vec![5, 2]);
    assert!(matches!(p.get_pub_inputs(&t), Err(Error::ProgramHashMismatch)));
    let p = ExecutionProver::new(options(), expected_hash(), vec![9, 9], vec![5, 2]);
    assert!(matches!(p.get_pub_inputs(&t), Err(Error::ProgramHashMismatch)));
}

#[test]
fn program_outputs_are_top_of_last_stack() {
    assert_eq!(good_trace().program_outputs(), vec![5, 2, 0, 0, 0, 0, 0, 0]);
}
