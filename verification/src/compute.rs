use vstd::prelude::*;
use vstd::arithmetic::power::{
    pow, lemma0_pow, lemma1_pow, lemma_pow0, lemma_pow_strictly_increases,
};
use crate::stream::{Status, StatusCode, StreamEvent};

verus! {

/// Operands of an addition.
#[derive(Debug, Clone, Copy, PartialEq, Eq)]
pub struct AddOperation {
    pub a: i64,
    pub b: i64,
}

/// Operands of a multiplication.
#[derive(Debug, Clone, Copy, PartialEq, Eq)]
pub struct MulOperation {
    pub a: i64,
    pub b: i64,
}

/// Operands of an exponentiation.
#[derive(Debug, Clone, Copy, PartialEq, Eq)]
pub struct PowOperation {
    pub base: i64,
    pub exponent: u32,
}

/// The operation that a compute request asks for.
#[derive(Debug, Clone, Copy, PartialEq, Eq)]
pub enum ComputeOperation {
    Add(AddOperation),
    Mul(MulOperation),
    Pow(PowOperation),
}

/// A compute request; it may carry no operation at all.
#[derive(Debug, Clone, Copy, PartialEq, Eq)]
pub struct ComputeRequest {
    pub operation: Option<ComputeOperation>,
}

/// The sum asked for by an `AddOperation`.
#[derive(Debug, Clone, Copy, PartialEq, Eq)]
pub struct AddOperationResult {
    pub result: i64,
}

/// The product asked for by a `MulOperation`.
#[derive(Debug, Clone, Copy, PartialEq, Eq)]
pub struct MulOperationResult {
    pub result: i64,
}

/// The power asked for by a `PowOperation`.
#[derive(Debug, Clone, Copy, PartialEq, Eq)]
pub struct PowOperationResult {
    pub result: i64,
}

/// The result of one compute operation, tagged with the kind of operation.
#[derive(Debug, Clone, Copy, PartialEq, Eq)]
pub enum ComputeResult {
    AddResult(AddOperationResult),
    MulResult(MulOperationResult),
    PowResult(PowOperationResult),
}

/// A compute response; it carries no result when the request carried no operation.
#[derive(Debug, Clone, Copy, PartialEq, Eq)]
pub struct ComputeResponse {
    pub result: Option<ComputeResult>,
}

pub open spec fn abs(x: int) -> int {
    if x < 0 {
        -x
    } else {
        x
    }
}

pub open spec fn in_i64(x: int) -> bool {
    i64::MIN <= x <= i64::MAX
}

/// The exact value that an operation asks for.
pub open spec fn operation_value(op: ComputeOperation) -> int {
    match op {
        ComputeOperation::Add(o) => o.a + o.b,
        ComputeOperation::Mul(o) => o.a * o.b,
        ComputeOperation::Pow(o) => pow(o.base as int, o.exponent as nat),
    }
}

/// Whether `resp` answers `req`: it carries the sum, product or power of the request's
/// operands, tagged with the kind of operation, or no result for a request without
/// operation.
pub open spec fn answers(req: ComputeRequest, resp: ComputeResponse) -> bool {
    match req.operation {
        Some(ComputeOperation::Add(op)) => resp.result matches Some(ComputeResult::AddResult(r))
            && r.result == op.a + op.b,
        Some(ComputeOperation::Mul(op)) => resp.result matches Some(ComputeResult::MulResult(r))
            && r.result == op.a * op.b,
        Some(ComputeOperation::Pow(op)) => resp.result matches Some(ComputeResult::PowResult(r))
            && r.result == pow(op.base as int, op.exponent as nat),
        None => resp.result is None,
    }
}

/// Whether the value that the request asks for, if any, is an `i64`.
pub open spec fn request_in_range(req: ComputeRequest) -> bool {
    req.operation matches Some(op) ==> in_i64(operation_value(op))
}

proof fn lemma_pow_abs(b: int, e: nat)
    ensures
        abs(pow(b, e)) == pow(abs(b), e),
    decreases e,
{
    reveal(pow);
    if e > 0 {
        lemma_pow_abs(b, (e - 1) as nat);
        let p = pow(b, (e - 1) as nat);
        assert(abs(b * p) == abs(b) * abs(p)) by (nonlinear_arith);
    }
}

proof fn lemma_pow_minus_one(e: nat)
    ensures
        pow(-1, e) == if e % 2 == 0 { 1int } else { -1int },
    decreases e,
{
    reveal(pow);
    if e > 0 {
        lemma_pow_minus_one((e - 1) as nat);
    }
}

/// `base` raised to `exponent`.
fn power(base: i64, exponent: u32) -> (r: i64)
    requires
        in_i64(pow(base as int, exponent as nat)),
    ensures
        r == pow(base as int, exponent as nat),
{
    if exponent == 0 {
        proof {
            lemma_pow0(base as int);
        }
        return 1;
    }
    if base == 0 {
        proof {
            lemma0_pow(exponent as nat);
        }
        return 0;
    }
    if base == 1 {
        proof {
            lemma1_pow(exponent as nat);
        }
        return 1;
    }
    if base == -1 {
        proof {
            lemma_pow_minus_one(exponent as nat);
        }
        return if exponent % 2 == 0 {
            1
        } else {
            -1
        };
    }
    let mut acc: i64 = 1;
    let mut i: u32 = 0;
    proof {
        lemma_pow0(base as int);
    }
    while i < exponent
        invariant
            0 <= i <= exponent,
            abs(base as int) >= 2,
            acc == pow(base as int, i as nat),
            in_i64(pow(base as int, exponent as nat)),
        decreases exponent - i,
    {
        proof {
            reveal(pow);
            assert(pow(base as int, (i + 1) as nat) == base * pow(base as int, i as nat));
            lemma_pow_abs(base as int, (i + 1) as nat);
            lemma_pow_abs(base as int, exponent as nat);
            if i + 1 < exponent {
                lemma_pow_strictly_increases(
                    abs(base as int) as nat,
                    (i + 1) as nat,
                    exponent as nat,
                );
            }
            assert(acc * base == base * acc) by (nonlinear_arith);
        }
        acc = acc * base;
        i = i + 1;
    }
    acc
}

/// Computes what a compute request asks for: the sum, product or power of its operands,
/// tagged with the kind of operation, or no result for a request without operation.
pub fn handle_compute_operation(req: ComputeRequest) -> (resp: ComputeResponse)
    requires
        request_in_range(req),
    ensures
        answers(req, resp),
{
    match req.operation {
        Some(ComputeOperation::Add(op)) => ComputeResponse {
            result: Some(ComputeResult::AddResult(AddOperationResult { result: op.a + op.b })),
        },
        Some(ComputeOperation::Mul(op)) => ComputeResponse {
            result: Some(ComputeResult::MulResult(MulOperationResult { result: op.a * op.b })),
        },
        Some(ComputeOperation::Pow(op)) => ComputeResponse {
            result: Some(
                ComputeResult::PowResult(PowOperationResult { result: power(op.base, op.exponent) }),
            ),
        },
        None => ComputeResponse { result: None },
    }
}

/// What the compute service does with one item of a request stream.
#[derive(Debug, Clone, PartialEq, Eq)]
pub enum ComputeServiceAction {
    /// Send this response.
    Reply(ComputeResponse),
    /// Send this status, telling the requester that a message could not be decoded, and
    /// stop.
    RejectAndStop(Status),
}

/// Decides what the compute service does with one item of its request stream; a failed
/// item carries the decoder's description of the failure.
pub fn compute_service_step(event: StreamEvent<ComputeRequest, String>) -> (action:
    ComputeServiceAction)
    requires
        event matches StreamEvent::Received(req) ==> request_in_range(req),
    ensures
        match event {
            StreamEvent::Received(req) => action matches ComputeServiceAction::Reply(resp)
                && answers(req, resp),
            StreamEvent::Failed(detail) => action matches ComputeServiceAction::RejectAndStop(s)
                && s.code == StatusCode::InvalidArgument && s.message@
                == "error decoding message: "@ + detail@,
        },
{
    match event {
        StreamEvent::Received(req) => ComputeServiceAction::Reply(handle_compute_operation(req)),
        StreamEvent::Failed(detail) => ComputeServiceAction::RejectAndStop(
            decode_failure_status(detail.as_str()),
        ),
    }
}

/// Whether the compute service goes on reading after carrying out `action`, given
/// whether sending to the requester failed.
pub fn compute_service_continues(action: &ComputeServiceAction, send_failed: bool) -> (r: bool)
    ensures
        r == match *action {
            ComputeServiceAction::Reply(_) => !send_failed,
            ComputeServiceAction::RejectAndStop(_) => false,
        },
{
    match action {
        ComputeServiceAction::Reply(_) => !send_failed,
        ComputeServiceAction::RejectAndStop(_) => false,
    }
}

/// The text sent back when a message of the stream could not be decoded, `detail`
/// being the decoder's own description of the failure.
pub fn decode_failure_message(detail: &str) -> (m: String)
    ensures
        m@ == "error decoding message: "@ + detail@,
{
    let prefix = String::from_str("error decoding message: ");
    prefix.concat(detail)
}

/// The status sent back when a message of the stream could not be decoded: an invalid
/// argument, with `decode_failure_message`.
pub fn decode_failure_status(detail: &str) -> (s: Status)
    ensures
        s.code == StatusCode::InvalidArgument,
        s.message@ == "error decoding message: "@ + detail@,
{
    Status::invalid_argument(decode_failure_message(detail))
}

} // verus!
