use wasm_runner::address::Address;
use wasm_runner::chain::{Block, ChainNotification, Checkpoint, LogEntry, Receipt};
use wasm_runner::extract::{extract, ExecutionRequestEvent};
use wasm_runner::processor::ChainEventProcessor;
use wasm_runner::sandbox::{execute, execute_with_fuel, on_req, outcome_after_lookup, outcome_to_result, SandboxOutcome, WasiGrants, WasiRuntimeContext};

const REGISTRY: &str = "d8da6bf26964af9d7eed9e03e53415d37aa96045";

const HELLO: &str = r#"
(module
  (import "wasi_snapshot_preview1" "fd_write" (func $fd_write (param i32 i32 i32 i32) (result i32)))
  (memory (export "memory") 1)
  (data (i32.const 8) "Hello, borker!\n")

  (func $main (export "_start")
    (i32.store (i32.const 0) (i32.const 8))
    (i32.store (i32.const 4) (i32.const 14))
    (call $fd_write (i32.const 1) (i32.const 0) (i32.const 1) (i32.const 0))
    drop
  )
)
"#;

const NO_ENTRY: &str = r#"
(module
  (memory (export "memory") 1)
  (func $helper (export "helper") (result i32) (i32.const 7))
)
"#;

const TRAPS: &str = r#"
(module
  (func $main (export "_start") unreachable)
)
"#;

const OUT_OF_BOUNDS: &str = r#"
(module
  (memory 1)
  (func $main (export "_start")
    (i32.store (i32.const 1000000) (i32.const 1)))
)
"#;

const UNKNOWN_IMPORT: &str = r#"
(module
  (import "env" "launch_missiles" (func $launch))
  (func $main (export "_start") call $launch)
)
"#;

fn wat2wasm(source: &str) -> Vec<u8> {
    wat::parse_str(source).unwrap()
}

fn registry() -> Address {
    Address::from_hex(REGISTRY).unwrap()
}

fn other_address() -> Address {
    Address { bytes: vec![0x11; 20] }
}

fn log(address: Address, data: Vec<u8>) -> LogEntry {
    LogEntry { address, data }
}

fn block(number: u64, receipts: Vec<Receipt>) -> Block {
    Block { number, hash: vec![number as u8; 32], receipts }
}

fn committed(blocks: Vec<Block>) -> ChainNotification {
    ChainNotification::Committed { new: blocks }
}

fn checkpoint_of(c: &Option<Checkpoint>) -> Option<(u64, Vec<u8>)> {
    c.as_ref().map(|c| (c.height, c.block_hash.clone()))
}

#[test]
fn main_test_wasm_code_execution_success() {
    let code = wat2wasm(HELLO);
    let actual_res = on_req(&ExecutionRequestEvent { code });
    assert!(actual_res.is_ok());
}

#[test]
fn wasm_test_wasm_code_execution_success() {
    let code = wat2wasm(HELLO);
    let actual_res = on_req(&ExecutionRequestEvent { code });
    assert!(actual_res.is_ok());
}

#[test]
fn empty_commit_checkpoints_its_tip() {
    let mut p = ChainEventProcessor::new(registry());
    let r = p.process(&committed(vec![block(0, vec![])]));
    assert!(r.executed.is_empty());
    assert_eq!(checkpoint_of(&r.checkpoint), Some((0, vec![0u8; 32])));
    assert_eq!(checkpoint_of(&p.checkpoint), Some((0, vec![0u8; 32])));
}

#[test]
fn hello_module_completes_and_checkpoint_advances() {
    let mut p = ChainEventProcessor::new(registry());
    let b = block(7, vec![Receipt { logs: vec![log(registry(), wat2wasm(HELLO))] }]);
    let r = p.process(&committed(vec![b]));
    assert_eq!(r.executed.len(), 1);
    assert_eq!(r.outcomes.len(), 1);
    assert!(matches!(r.outcomes[0], SandboxOutcome::Completed));
    assert_eq!(checkpoint_of(&r.checkpoint), Some((7, vec![7u8; 32])));
}

#[test]
fn invalid_module_fails_instantiation_and_checkpoint_advances() {
    let mut p = ChainEventProcessor::new(registry());
    let b = block(
        9,
        vec![Receipt {
            logs: vec![
                log(registry(), vec![0xde, 0xad, 0xbe, 0xef]),
                log(registry(), wat2wasm(HELLO)),
            ],
        }],
    );
    let r = p.process(&committed(vec![b]));
    assert_eq!(r.outcomes.len(), 2);
    assert!(matches!(r.outcomes[0], SandboxOutcome::InstantiationFailed(_)));
    assert!(matches!(r.outcomes[1], SandboxOutcome::Completed));
    assert_eq!(checkpoint_of(&p.checkpoint), Some((9, vec![9u8; 32])));
}

#[test]
fn missing_entry_point_is_not_an_error() {
    let o = execute(&wat2wasm(NO_ENTRY));
    assert!(matches!(o, SandboxOutcome::EntryPointAbsent));
    assert_eq!(outcome_to_result(o), Ok(()));
    let mut p = ChainEventProcessor::new(registry());
    let b = block(3, vec![Receipt { logs: vec![log(registry(), wat2wasm(NO_ENTRY))] }]);
    let r = p.process(&committed(vec![b]));
    assert!(matches!(r.outcomes[0], SandboxOutcome::EntryPointAbsent));
    assert_eq!(checkpoint_of(&r.checkpoint), Some((3, vec![3u8; 32])));
}

#[test]
fn traps_are_caught() {
    assert!(matches!(execute(&wat2wasm(TRAPS)), SandboxOutcome::Trapped(_)));
    assert!(matches!(execute(&wat2wasm(OUT_OF_BOUNDS)), SandboxOutcome::Trapped(_)));
    assert!(matches!(on_req(&ExecutionRequestEvent { code: wat2wasm(TRAPS) }), SandboxOutcome::Trapped(_)));
}

#[test]
fn unresolved_import_fails_instantiation() {
    assert!(matches!(
        execute(&wat2wasm(UNKNOWN_IMPORT)),
        SandboxOutcome::InstantiationFailed(_)
    ));
    assert!(matches!(execute(&[]), SandboxOutcome::InstantiationFailed(_)));
}

#[test]
fn outcome_to_result_maps_each_outcome() {
    assert_eq!(outcome_to_result(SandboxOutcome::Completed), Ok(()));
    assert_eq!(outcome_to_result(SandboxOutcome::EntryPointAbsent), Ok(()));
    assert_eq!(
        outcome_to_result(SandboxOutcome::Trapped("boom".to_string())),
        Err("boom".to_string())
    );
    assert_eq!(
        outcome_to_result(SandboxOutcome::InstantiationFailed("bad".to_string())),
        Err("bad".to_string())
    );
}

#[test]
fn extraction_filters_and_orders() {
    let b = block(
        5,
        vec![
            Receipt { logs: vec![log(other_address(), vec![1]), log(registry(), vec![2])] },
            Receipt { logs: vec![] },
            Receipt {
                logs: vec![
                    log(registry(), vec![3]),
                    log(other_address(), vec![4]),
                    log(registry(), vec![5]),
                ],
            },
        ],
    );
    let ps = extract(&b, &registry());
    let got: Vec<(u64, usize, usize, Vec<u8>)> = ps
        .iter()
        .map(|p| (p.origin_block_height, p.origin_receipt_index, p.origin_log_index, p.code.clone()))
        .collect();
    assert_eq!(
        got,
        vec![(5, 0, 1, vec![2]), (5, 2, 0, vec![3]), (5, 2, 2, vec![5])]
    );
}

#[test]
fn decode_raw_log_takes_data_verbatim() {
    let l = log(registry(), vec![0, 97, 115, 109]);
    assert_eq!(ExecutionRequestEvent::decode_raw_log(&l).code, vec![0, 97, 115, 109]);
}

#[test]
fn checkpoint_is_tip_of_committed_range() {
    let mut p = ChainEventProcessor::new(registry());
    let blocks = vec![
        block(10, vec![Receipt { logs: vec![log(registry(), wat2wasm(HELLO))] }]),
        block(11, vec![]),
        block(12, vec![Receipt { logs: vec![log(registry(), wat2wasm(NO_ENTRY))] }]),
    ];
    let r = p.process(&committed(blocks));
    assert_eq!(r.executed.len(), 2);
    assert_eq!(r.executed[0].origin_block_height, 10);
    assert_eq!(r.executed[1].origin_block_height, 12);
    assert_eq!(checkpoint_of(&r.checkpoint), Some((12, vec![12u8; 32])));
}

#[test]
fn reorg_runs_nothing_and_processing_resumes() {
    let mut p = ChainEventProcessor::new(registry());
    p.process(&committed(vec![block(1, vec![])]));
    let old = vec![block(2, vec![Receipt { logs: vec![log(registry(), wat2wasm(HELLO))] }])];
    let new = vec![block(2, vec![Receipt { logs: vec![log(registry(), wat2wasm(TRAPS))] }])];
    let r = p.process(&ChainNotification::Reorged { old, new });
    assert!(r.executed.is_empty());
    assert!(r.outcomes.is_empty());
    assert!(r.checkpoint.is_none());
    assert_eq!(checkpoint_of(&p.checkpoint), Some((1, vec![1u8; 32])));
    let r = p.process(&committed(vec![block(3, vec![Receipt {
        logs: vec![log(registry(), wat2wasm(HELLO))],
    }])]));
    assert!(matches!(r.outcomes[0], SandboxOutcome::Completed));
    assert_eq!(checkpoint_of(&p.checkpoint), Some((3, vec![3u8; 32])));
}

#[test]
fn revert_runs_nothing() {
    let mut p = ChainEventProcessor::new(registry());
    let old = vec![block(4, vec![Receipt { logs: vec![log(registry(), wat2wasm(HELLO))] }])];
    let r = p.process(&ChainNotification::Reverted { old });
    assert!(r.executed.is_empty());
    assert!(r.checkpoint.is_none());
    assert!(p.checkpoint.is_none());
}

#[test]
fn replay_after_restart_gives_same_outcomes() {
    let n = committed(vec![block(
        20,
        vec![Receipt {
            logs: vec![
                log(registry(), wat2wasm(HELLO)),
                log(registry(), vec![1, 2, 3]),
                log(registry(), wat2wasm(TRAPS)),
            ],
        }],
    )]);
    let mut first = ChainEventProcessor::new(registry());
    let a = first.process(&n);
    let persisted = Checkpoint { height: 19, block_hash: vec![19u8; 32] };
    let mut resumed = ChainEventProcessor::resume(registry(), Some(persisted));
    let b = resumed.process(&n);
    let kinds = |r: &wasm_runner::processor::ProcessReport| -> Vec<u8> {
        r.outcomes
            .iter()
            .map(|o| match o {
                SandboxOutcome::Completed => 0,
                SandboxOutcome::Trapped(_) => 1,
                SandboxOutcome::InstantiationFailed(_) => 2,
                SandboxOutcome::EntryPointAbsent => 3,
            })
            .collect()
    };
    assert_eq!(kinds(&a), vec![0, 2, 1]);
    assert_eq!(kinds(&a), kinds(&b));
    assert_eq!(checkpoint_of(&a.checkpoint), checkpoint_of(&b.checkpoint));
}

#[test]
fn address_from_hex() {
    let a = Address::from_hex(REGISTRY).unwrap();
    assert_eq!(a.bytes.len(), 20);
    assert_eq!(a.bytes[0], 0xd8);
    assert_eq!(a.bytes[19], 0x45);
    let b = Address::from_hex("0xD8DA6BF26964AF9D7EED9E03E53415D37AA96045").unwrap();
    assert!(a.same_as(&b));
    assert!(!a.same_as(&other_address()));
    assert!(Address::from_hex("d8da6bf2").is_none());
    assert!(Address::from_hex("g8da6bf26964af9d7eed9e03e53415d37aa96045").is_none());
    assert!(Address::from_hex("").is_none());
}

const RUNS_ONCE: &str = r#"
(module
  (global $ran (mut i32) (i32.const 0))
  (memory 1)
  (func $main (export "_start")
    (if (global.get $ran) (then unreachable))
    (if (i32.load (i32.const 0)) (then unreachable))
    (global.set $ran (i32.const 1))
    (i32.store (i32.const 0) (i32.const 1)))
)
"#;

#[test]
fn each_run_starts_from_fresh_state() {
    let mut a = WasiRuntimeContext::new();
    let g = a.grants();
    assert!(g.stdout && g.stderr);
    let _ctx = a.ctx_mut();
    let quiet = WasiRuntimeContext::with_grants(WasiGrants { stdout: false, stderr: false });
    assert!(!quiet.grants().stdout && !quiet.grants().stderr);
    let code = wat2wasm(RUNS_ONCE);
    assert!(matches!(execute(&code), SandboxOutcome::Completed));
    assert!(matches!(execute(&code), SandboxOutcome::Completed));
}

#[test]
fn entry_point_absent_and_completed_are_distinct() {
    assert!(matches!(
        on_req(&ExecutionRequestEvent { code: wat2wasm(NO_ENTRY) }),
        SandboxOutcome::EntryPointAbsent
    ));
    assert!(matches!(
        on_req(&ExecutionRequestEvent { code: wat2wasm(HELLO) }),
        SandboxOutcome::Completed
    ));
}

#[test]
fn outcome_after_lookup_maps_each_case() {
    assert!(matches!(outcome_after_lookup(None), SandboxOutcome::EntryPointAbsent));
    assert!(matches!(outcome_after_lookup(Some(Ok(()))), SandboxOutcome::Completed));
    match outcome_after_lookup(Some(Err("trap".to_string()))) {
        SandboxOutcome::Trapped(m) => assert_eq!(m, "trap"),
        _ => panic!("expected a trap"),
    }
}

const LOOPS: &str = r#"
(module
  (func $main (export "_start") (loop $l (br $l)))
)
"#;

#[test]
fn fuel_budget_stops_a_looping_module() {
    assert!(matches!(execute_with_fuel(&wat2wasm(LOOPS), 10000), SandboxOutcome::Trapped(_)));
    assert!(matches!(execute_with_fuel(&wat2wasm(HELLO), 10000), SandboxOutcome::Completed));
}

#[test]
fn invalid_bytes_fail_on_request() {
    assert!(matches!(
        on_req(&ExecutionRequestEvent { code: b"not wasm".to_vec() }),
        SandboxOutcome::InstantiationFailed(_)
    ));
    assert!(!on_req(&ExecutionRequestEvent { code: vec![] }).is_ok());
}
