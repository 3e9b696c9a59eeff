use openworkers_runtime::evaluation::{
    compile_error_text, context_error_text, evaluated_source, heap_snapshot, microtask_error_text,
    pooled_source, run_error_text, CompileMessage, EvalStep, PooledSource, WorkerCode,
};
use openworkers_runtime::limits::TerminationReason;
use openworkers_runtime::snapshot::{
    create_code_cache, create_runtime_snapshot, create_worker_snapshot, is_code_cache,
    pack_code_cache, unpack_code_cache, CacheStep, SnapshotFailure,
};

#[test]
fn a_packed_script_has_the_documented_format() {
    let packed = pack_code_cache("ab", &[9, 8]);
    assert_eq!(packed, vec![0x5e, 0xca, 0xde, 0xc0, 2, 0, 0, 0, b'a', b'b', 9, 8]);
    assert!(is_code_cache(&packed));
}

#[test]
fn unpacking_gives_back_what_was_packed() {
    let packed = pack_code_cache("let x = 'é';", &[1, 2, 3]);
    assert_eq!(unpack_code_cache(&packed), Some(("let x = 'é';", &[1u8, 2, 3][..])));
    let empty = pack_code_cache("", &[]);
    assert_eq!(unpack_code_cache(&empty), Some(("", &[][..])));
}

#[test]
fn what_was_not_packed_is_not_unpacked() {
    assert_eq!(unpack_code_cache(&[]), None);
    assert_eq!(unpack_code_cache(&[0x5e, 0xca, 0xde, 0xc0]), None);
    assert!(!is_code_cache(&[0; 16]));
    assert_eq!(unpack_code_cache(&[0; 16]), None);
    let mut packed = pack_code_cache("abc", &[]);
    packed.pop();
    assert!(is_code_cache(&packed));
    assert_eq!(unpack_code_cache(&packed), None);
    let mut packed = pack_code_cache("abc", &[]);
    packed[8] = 0xff;
    assert_eq!(unpack_code_cache(&packed), None);
}

#[test]
fn only_source_is_evaluated_by_an_engine_of_its_own() {
    assert_eq!(evaluated_source(&WorkerCode::JavaScript("1".to_string())), Ok("1"));
    assert_eq!(
        evaluated_source(&WorkerCode::Snapshot(vec![1])),
        Err("Snapshot worker code evaluation not supported yet".to_string())
    );
    assert_eq!(
        evaluated_source(&WorkerCode::WebAssembly(vec![1])),
        Err("V8 runtime only supports JavaScript code".to_string())
    );
}

#[test]
fn a_pooled_engine_takes_source_and_packed_code() {
    let js = WorkerCode::JavaScript("1".to_string());
    assert!(matches!(pooled_source(&js), Ok(PooledSource::Plain("1"))));
    let packed = WorkerCode::Snapshot(pack_code_cache("2", &[7]));
    match pooled_source(&packed) {
        Ok(PooledSource::Cached(source, cache)) => {
            assert_eq!(source, "2");
            assert_eq!(cache, &[7]);
        }
        _ => panic!("Expected packed code"),
    }
    match pooled_source(&WorkerCode::Snapshot(vec![1])) {
        Err(TerminationReason::Exception(m)) => {
            assert_eq!(m, "Script evaluation failed: Failed to unpack code cache bundle")
        }
        _ => panic!("Expected an exception"),
    }
    match pooled_source(&WorkerCode::WebAssembly(vec![1])) {
        Err(TerminationReason::InitializationError(m)) => {
            assert_eq!(m, "V8 runtime only supports JavaScript code")
        }
        _ => panic!("Expected an initialization error"),
    }
}

#[test]
fn an_engine_starts_from_a_heap_but_not_from_packed_code() {
    let heap = WorkerCode::Snapshot(vec![1, 2, 3]);
    assert_eq!(heap_snapshot(&heap), Some(&vec![1, 2, 3]));
    assert_eq!(heap_snapshot(&WorkerCode::Snapshot(pack_code_cache("1", &[]))), None);
    assert_eq!(heap_snapshot(&WorkerCode::JavaScript(String::new())), None);
}

#[test]
fn code_that_does_not_compile_is_described() {
    let thrown = Some(Some("SyntaxError: Unexpected token".to_string()));
    let message = Some(CompileMessage {
        line: Some(12),
        column: 4,
        source_line: Some("let = 1".to_string()),
    });
    assert_eq!(
        compile_error_text(thrown.clone(), message),
        "SyntaxError at line 12, column 4: SyntaxError: Unexpected token\n  > let = 1"
    );
    let message = Some(CompileMessage { line: None, column: 0, source_line: None });
    assert_eq!(
        compile_error_text(Some(None), message),
        "SyntaxError at line 0, column 0: Unknown error\n  > "
    );
    assert_eq!(compile_error_text(thrown, None), "SyntaxError: SyntaxError: Unexpected token");
    assert_eq!(compile_error_text(None, None), "Failed to compile script");
}

#[test]
fn code_that_throws_is_described() {
    let thrown = Some(Some("Error: x".to_string()));
    assert_eq!(
        run_error_text(thrown.clone(), Some(Some("at f".to_string()))),
        "Error: x\nat f"
    );
    assert_eq!(run_error_text(thrown.clone(), Some(Some(String::new()))), "Error: x");
    assert_eq!(run_error_text(thrown.clone(), Some(None)), "Error: x");
    assert_eq!(run_error_text(thrown, None), "Error: x");
    assert_eq!(run_error_text(Some(None), None), "Unknown error");
    assert_eq!(run_error_text(None, None), "Failed to execute script");
}

#[test]
fn a_script_that_fails_in_a_context_is_described() {
    let thrown = Some("Error: y".to_string());
    assert_eq!(
        context_error_text(EvalStep::MakeString, thrown.clone()),
        "Failed to create V8 string"
    );
    assert_eq!(context_error_text(EvalStep::Compile, thrown.clone()), "Error: y");
    assert_eq!(context_error_text(EvalStep::Compile, None), "Compile error");
    assert_eq!(
        context_error_text(EvalStep::CompileCached, None),
        "Failed to compile with code cache"
    );
    assert_eq!(context_error_text(EvalStep::Run, None), "Runtime error");
    assert_eq!(context_error_text(EvalStep::Run, thrown), "Error: y");
    assert_eq!(
        microtask_error_text(None),
        "Exception during microtask processing: Unknown exception"
    );
    assert_eq!(
        microtask_error_text(Some("z".to_string())),
        "Exception during microtask processing: z"
    );
}

#[test]
fn a_snapshot_needs_something_written_and_code_that_ran() {
    assert_eq!(create_runtime_snapshot(Some(vec![4])).unwrap().output, vec![4]);
    assert_eq!(create_runtime_snapshot(None).unwrap_err(), "Failed to create snapshot blob");
    assert_eq!(create_worker_snapshot(Some(vec![5]), None).unwrap().output, vec![5]);
    assert_eq!(
        create_worker_snapshot(None, Some(SnapshotFailure::MakeString)).unwrap_err(),
        "Failed to create worker snapshot blob"
    );
    let fails = |f| create_worker_snapshot(Some(vec![5]), Some(f)).unwrap_err();
    assert_eq!(
        fails(SnapshotFailure::MakeString),
        "Failed to create V8 string from worker code"
    );
    assert_eq!(
        fails(SnapshotFailure::Compile(Some("c".to_string()))),
        "Failed to compile worker code: c"
    );
    assert_eq!(
        fails(SnapshotFailure::Run(None)),
        "Worker code threw during snapshotting: Unknown error"
    );
}

#[test]
fn compiled_code_is_handed_on() {
    assert_eq!(create_code_cache(Ok(vec![1])), Ok(vec![1]));
    assert_eq!(
        create_code_cache(Err(CacheStep::MakeString)).unwrap_err(),
        "Failed to create V8 string from source"
    );
    assert_eq!(
        create_code_cache(Err(CacheStep::Compile)).unwrap_err(),
        "Failed to compile script for code cache"
    );
    assert_eq!(
        create_code_cache(Err(CacheStep::WriteCache)).unwrap_err(),
        "Failed to create code cache from compiled script"
    );
}
