use rust_playground::operations::{list_operations, run_add, run_mul, run_operation, Runner, RunnerExtended};

#[test]
fn runner_lists_add_and_mul() {
    let runner = Runner;
    assert_eq!(runner.list_operations(), vec!["add".to_string(), "mul".to_string()]);
}

#[test]
fn free_list_matches_runner_list() {
    assert_eq!(list_operations(), Runner.list_operations());
}

#[test]
fn runner_runs_add_and_mul() {
    let runner = Runner;
    assert_eq!(runner.run_operation("add".to_string(), 2, 3), 5);
    assert_eq!(runner.run_operation("mul".to_string(), 2, 3), 6);
    assert_eq!(runner.run_operation("add".to_string(), u32::MAX, 0), u32::MAX);
    assert_eq!(runner.run_operation("mul".to_string(), 0, u32::MAX), 0);
}

#[test]
fn free_run_operation_runs_add_and_mul() {
    assert_eq!(run_operation("add".to_string(), 7, 8), 15);
    assert_eq!(run_operation("mul".to_string(), 7, 8), 56);
    assert_eq!(run_operation("mul".to_string(), 65536, 65535), 4294901760);
}

#[test]
fn extended_runner_matches_client_usage() {
    let runner = Runner;
    assert_eq!(runner.run_add(10, 20), 30);
    assert_eq!(runner.run_mul(15, 3), 45);
}

#[test]
fn generated_operations_match_main_usage() {
    assert_eq!(run_add(5, 10), 15);
    assert_eq!(run_mul(5, 10), 50);
}

#[test]
fn every_listed_operation_runs() {
    for op in list_operations() {
        let r = run_operation(op.clone(), 4, 5);
        assert!(r == 9 || r == 20);
    }
}
