use vstd::prelude::*;
use crate::fibonacci::{fib, fibonacci, lemma_fits_iff_at_most_max, MAX_FIB_INPUT};
use crate::stream::{Status, StatusCode, StreamEvent};

verus! {

/// A request for the `n`-th Fibonacci number.
#[derive(Debug, Clone, Copy, PartialEq, Eq)]
pub struct ProofRequest {
    pub n: u32,
}

/// The answer to a `ProofRequest`.
#[derive(Debug, Clone, Copy, PartialEq, Eq)]
pub struct ProofResponse {
    pub result: u64,
}

/// Why a `ProofRequest` was refused.
#[derive(Debug, Clone, Copy, PartialEq, Eq)]
pub enum ProofError {
    /// The input is above `MAX_FIB_INPUT`: its answer does not fit in a `u64`.
    InputTooLarge,
}

impl ProofError {
    /// The text sent back to the requester, as an invalid-argument status.
    pub fn message(&self) -> (m: String)
        ensures
            m@ == "Input too large, max is 93"@,
    {
        match self {
            ProofError::InputTooLarge => String::from_str("Input too large, max is 93"),
        }
    }

    /// The status sent back to the requester: an invalid argument, with `message`.
    pub fn status(&self) -> (s: Status)
        ensures
            s.code == StatusCode::InvalidArgument,
            s.message@ == "Input too large, max is 93"@,
    {
        Status::invalid_argument(self.message())
    }
}

/// Answers one request: the Fibonacci number of `req.n`, or `InputTooLarge` when
/// `req.n` is above `MAX_FIB_INPUT`.
pub fn handle_proof_request(req: &ProofRequest) -> (r: Result<ProofResponse, ProofError>)
    ensures
        r is Ok <==> req.n <= MAX_FIB_INPUT,
        r matches Ok(resp) ==> resp.result == fib(req.n as nat),
        r matches Err(e) ==> e == ProofError::InputTooLarge,
{
    if req.n > MAX_FIB_INPUT {
        return Err(ProofError::InputTooLarge);
    }
    proof {
        lemma_fits_iff_at_most_max(req.n as nat);
    }
    Ok(ProofResponse { result: fibonacci(req.n) })
}

/// What the proof service does with one item of a request stream whose failures are
/// of type `E`.
#[derive(Debug, Clone, PartialEq, Eq)]
pub enum ProofServiceAction<E> {
    /// Send this answer.
    Reply(ProofResponse),
    /// Send this refusal (as `ProofError::status`) and go on with the next request.
    Reject(ProofError),
    /// Pass this failure of the stream on to the requester, unchanged, and stop.
    ForwardFailureAndStop(E),
}

/// Decides what the proof service does with one item of its request stream.
pub fn proof_service_step<E>(event: StreamEvent<ProofRequest, E>) -> (action: ProofServiceAction<E>)
    ensures
        match event {
            StreamEvent::Received(req) => if req.n <= MAX_FIB_INPUT {
                action matches ProofServiceAction::Reply(resp) && resp.result == fib(req.n as nat)
            } else {
                action == ProofServiceAction::<E>::Reject(ProofError::InputTooLarge)
            },
            StreamEvent::Failed(e) => action == ProofServiceAction::ForwardFailureAndStop(e),
        },
{
    match event {
        StreamEvent::Received(req) => match handle_proof_request(&req) {
            Ok(resp) => ProofServiceAction::Reply(resp),
            Err(e) => ProofServiceAction::Reject(e),
        },
        StreamEvent::Failed(e) => ProofServiceAction::ForwardFailureAndStop(e),
    }
}

/// Whether the proof service goes on reading after carrying out `action`, given whether
/// sending to the requester failed: a reply that cannot be delivered ends the stream, a
/// refusal never does, and a forwarded failure always does.
pub fn proof_service_continues<E>(action: &ProofServiceAction<E>, send_failed: bool) -> (r: bool)
    ensures
        r == match *action {
            ProofServiceAction::Reply(_) => !send_failed,
            ProofServiceAction::Reject(_) => true,
            ProofServiceAction::ForwardFailureAndStop(_) => false,
        },
{
    match action {
        ProofServiceAction::Reply(_) => !send_failed,
        ProofServiceAction::Reject(_) => true,
        ProofServiceAction::ForwardFailureAndStop(_) => false,
    }
}

} // verus!
