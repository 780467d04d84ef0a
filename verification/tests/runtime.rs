//! The runtime half of the emitted code: the blocking adapter drives the
//! asynchronous body to completion once, a success value passes through, an
//! error becomes a reported failure carrying the error's text.

use std::cell::Cell;

use async_std_test::{resolve_outcome, run_test, TestOutcome};

#[test]
fn success_value_passes_through() {
    let outcome = run_test(|| async_std::task::block_on(async { Ok::<u32, String>(7) }));
    assert!(matches!(outcome, TestOutcome::Passed(7)));
}

#[test]
fn unit_success_reports_no_failure() {
    let outcome = run_test(|| {
        async_std::task::block_on(async {
            assert_eq!(2 * 2, 4);
            Ok::<(), String>(())
        })
    });
    assert!(matches!(outcome, TestOutcome::Passed(())));
}

#[test]
fn error_fails_with_its_text_in_the_message() {
    let outcome = run_test(|| {
        async_std::task::block_on(async { Err::<(), String>("boom".into()) })
    });
    match outcome {
        TestOutcome::Passed(_) => panic!("an error result did not fail the test"),
        TestOutcome::Failed(message) => {
            assert_eq!(message, "Error in test: boom");
            assert!(message.contains("boom"));
        }
    }
}

#[test]
fn body_is_driven_exactly_once() {
    let executions = Cell::new(0u32);
    let outcome = run_test(|| {
        async_std::task::block_on(async {
            executions.set(executions.get() + 1);
            Ok::<u32, String>(1)
        })
    });
    assert!(matches!(outcome, TestOutcome::Passed(1)));
    assert_eq!(executions.get(), 1);
}

// The next two functions are the emitted wrapper shapes written out as real
// code (spacing aside, character for character what `render` pins down), so
// that the string-level contract is backed by code that compiles and runs.

fn emitted_shape_result() -> Result<(), String> {
    async fn test_inner() -> Result<(), String> {
        Ok(())
    }
    match async_std::task::block_on(test_inner()) {
        Ok(value) => Ok(value),
        Err(error) => panic!("Error in test: {}", error),
    }
}

fn emitted_shape_unit() {
    async fn test_inner() {
        assert_eq!(2 * 2, 4);
    }
    async_std::task::block_on(test_inner())
}

#[test]
fn emitted_result_shape_compiles_and_returns_the_success_value() {
    assert_eq!(emitted_shape_result(), Ok(()));
}

#[test]
fn emitted_unit_shape_compiles_and_reports_no_failure() {
    emitted_shape_unit();
}

#[test]
fn resolving_ok_passes() {
    assert!(matches!(resolve_outcome(Ok::<u8, String>(5)), TestOutcome::Passed(5)));
}

#[test]
fn resolving_err_builds_the_exact_message() {
    match resolve_outcome(Err::<u8, String>("file missing".to_string())) {
        TestOutcome::Passed(_) => panic!("an error result did not fail the test"),
        TestOutcome::Failed(message) => assert_eq!(message, "Error in test: file missing"),
    }
}
