use rust_playground::compute::{
    compute_service_continues, compute_service_step, decode_failure_message, decode_failure_status,
    handle_compute_operation, AddOperation, AddOperationResult, ComputeOperation, ComputeRequest,
    ComputeResponse, ComputeResult, ComputeServiceAction, MulOperation, MulOperationResult,
    PowOperation, PowOperationResult,
};
use rust_playground::stream::{Status, StatusCode, StreamEvent};

fn pow_of(base: i64, exponent: u32) -> i64 {
    let resp = handle_compute_operation(ComputeRequest {
        operation: Some(ComputeOperation::Pow(PowOperation { base, exponent })),
    });
    match resp.result {
        Some(ComputeResult::PowResult(r)) => r.result,
        other => panic!("unexpected {:?}", other),
    }
}

#[test]
fn add_request() {
    let resp = handle_compute_operation(ComputeRequest {
        operation: Some(ComputeOperation::Add(AddOperation { a: 2, b: -7 })),
    });
    assert_eq!(
        resp,
        ComputeResponse { result: Some(ComputeResult::AddResult(AddOperationResult { result: -5 })) }
    );
}

#[test]
fn mul_request() {
    let resp = handle_compute_operation(ComputeRequest {
        operation: Some(ComputeOperation::Mul(MulOperation { a: -6, b: 7 })),
    });
    assert_eq!(
        resp,
        ComputeResponse { result: Some(ComputeResult::MulResult(MulOperationResult { result: -42 })) }
    );
}

#[test]
fn pow_request() {
    let resp = handle_compute_operation(ComputeRequest {
        operation: Some(ComputeOperation::Pow(PowOperation { base: 2, exponent: 10 })),
    });
    assert_eq!(
        resp,
        ComputeResponse { result: Some(ComputeResult::PowResult(PowOperationResult { result: 1024 })) }
    );
}

#[test]
fn pow_edge_cases() {
    assert_eq!(pow_of(7, 0), 1);
    assert_eq!(pow_of(0, 0), 1);
    assert_eq!(pow_of(0, 5), 0);
    assert_eq!(pow_of(1, u32::MAX), 1);
    assert_eq!(pow_of(-1, u32::MAX), -1);
    assert_eq!(pow_of(-1, 1_000_000), 1);
    assert_eq!(pow_of(-3, 3), -27);
    assert_eq!(pow_of(-2, 63), i64::MIN);
    assert_eq!(pow_of(2, 62), 1i64 << 62);
    assert_eq!(pow_of(3, 39), 3i64.pow(39));
}

#[test]
fn pow_matches_std() {
    for base in -9i64..=9 {
        for exponent in 0u32..=18 {
            assert_eq!(pow_of(base, exponent), base.pow(exponent));
        }
    }
}

#[test]
fn empty_request_gets_empty_response() {
    let resp = handle_compute_operation(ComputeRequest { operation: None });
    assert_eq!(resp, ComputeResponse { result: None });
}

#[test]
fn compute_step_and_continuation() {
    let action = compute_service_step(StreamEvent::Received(ComputeRequest {
        operation: Some(ComputeOperation::Add(AddOperation { a: 1, b: 2 })),
    }));
    assert_eq!(
        action,
        ComputeServiceAction::Reply(ComputeResponse {
            result: Some(ComputeResult::AddResult(AddOperationResult { result: 3 }))
        })
    );
    assert!(compute_service_continues(&action, false));
    assert!(!compute_service_continues(&action, true));
    let failed = compute_service_step(StreamEvent::Failed("invalid wire type".to_string()));
    assert_eq!(
        failed,
        ComputeServiceAction::RejectAndStop(Status::invalid_argument(
            "error decoding message: invalid wire type".to_string()
        ))
    );
    assert!(!compute_service_continues(&failed, false));
}

#[test]
fn decode_failure_text() {
    assert_eq!(decode_failure_message("bad tag"), "error decoding message: bad tag");
    let s = decode_failure_status("bad tag");
    assert_eq!(s.code, StatusCode::InvalidArgument);
    assert_eq!(s.message, "error decoding message: bad tag");
}
