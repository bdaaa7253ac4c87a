//! Outcomes of GATT operations, and the retry that follows an encryption failure.
use vstd::prelude::*;
use crate::model::{BleError, CommunicationStatus, STATUS_SUCCESS};

verus! {

/// The GATT operations whose runtime status the backend reports.
#[derive(Clone, Copy, Debug, PartialEq, Eq)]
pub enum GattOperation {
    /// Writing a characteristic value.
    Write,
    /// Reading a characteristic or descriptor value.
    Read,
    /// Enabling notifications or indications.
    Subscribe,
    /// Disabling notifications and indications.
    Unsubscribe,
    /// Writing a descriptor value.
    WriteDescriptor,
}

/// The start of the message for a failed operation.
pub open spec fn failure_prefix(op: GattOperation) -> Seq<char> {
    match op {
        GattOperation::Write => "Windows UWP threw error on write: "@,
        GattOperation::Read => "Windows UWP threw error on read: "@,
        GattOperation::Subscribe => "Windows UWP threw error on subscribe: "@,
        GattOperation::Unsubscribe => "Windows UWP threw error on unsubscribe: "@,
        GattOperation::WriteDescriptor => "Windows UWP threw error on write descriptor: "@,
    }
}

/// The result of an operation that the runtime completed with `status`.
pub open spec fn operation_result(
    op: GattOperation,
    status: CommunicationStatus,
    detail: Seq<char>,
    r: Result<(), BleError>,
) -> bool {
    if status.code == STATUS_SUCCESS {
        r == Ok::<(), BleError>(())
    } else {
        r matches Err(BleError::Other(m)) && m@ == failure_prefix(op) + detail
    }
}

/// Judges an operation that the runtime completed: success when the status
/// says so, else an error whose message names the operation and ends with
/// `detail`, the runtime's own description of what it returned.
pub fn operation_outcome(op: GattOperation, status: CommunicationStatus, detail: &str) -> (r:
    Result<(), BleError>)
    ensures
        operation_result(op, status, detail@, r),
        r is Ok <==> status.code == 0,
{
    if status.code == STATUS_SUCCESS {
        return Ok(());
    }
    let mut message = match op {
        GattOperation::Write => "Windows UWP threw error on write: ".to_string(),
        GattOperation::Read => "Windows UWP threw error on read: ".to_string(),
        GattOperation::Subscribe => "Windows UWP threw error on subscribe: ".to_string(),
        GattOperation::Unsubscribe => "Windows UWP threw error on unsubscribe: ".to_string(),
        GattOperation::WriteDescriptor => "Windows UWP threw error on write descriptor: ".to_string(),
    };
    message.append(detail);
    Err(BleError::Other(message))
}

/// A completed operation succeeds exactly when the runtime's status is
/// Success (0), whatever the operation; otherwise its error is an `Other`
/// whose message names the operation and ends with the runtime's text. Two
/// operations with the same status agree on success.
pub proof fn law_operation_outcome(
    op1: GattOperation,
    op2: GattOperation,
    status: CommunicationStatus,
    detail1: Seq<char>,
    detail2: Seq<char>,
    r1: Result<(), BleError>,
    r2: Result<(), BleError>,
)
    requires
        operation_result(op1, status, detail1, r1),
        operation_result(op2, status, detail2, r2),
    ensures
        r1 is Ok <==> status.code == 0,
        r1 is Ok <==> r2 is Ok,
        status.code != 0 ==> (r1 matches Err(BleError::Other(m)) && m@.len() >= detail1.len()
            && m@.subrange(m@.len() - detail1.len(), m@.len() as int) == detail1
            && m@.subrange(0, m@.len() - detail1.len()) == failure_prefix(op1)),
{
    if status.code != 0 {
        if let Err(BleError::Other(m)) = r1 {
            assert(m@.subrange(m@.len() - detail1.len(), m@.len() as int) =~= detail1);
            assert(m@.subrange(0, m@.len() - detail1.len()) =~= failure_prefix(op1));
        }
    }
}

/// How one attempt of an operation ended.
#[derive(Clone, Copy, Debug, PartialEq, Eq)]
pub enum AttemptResult {
    /// The runtime completed the operation and returned a result.
    Completed,
    /// The runtime failed the operation; `encryption` tells whether the error
    /// stands for missing encryption or authentication.
    Failed { encryption: bool },
}

/// What to do after an attempt.
#[derive(Clone, Copy, Debug, PartialEq, Eq)]
pub enum AttemptDecision {
    /// Judge the result the runtime returned.
    Accept,
    /// Pair with the device, then decide with `after_pairing`.
    Pair,
    /// Report the runtime's error.
    GiveUp,
}

/// What to do after pairing.
#[derive(Clone, Copy, Debug, PartialEq, Eq)]
pub enum PairingDecision {
    /// Attempt the operation again.
    Retry,
    /// Report the error of the failed attempt.
    GiveUp,
}

/// The retry policy of one GATT operation: an attempt that fails for want of
/// encryption or authentication is followed by pairing and one more attempt;
/// any other failure is reported.
pub struct AutoPairRetry {
    attempts: u32,
}

impl View for AutoPairRetry {
    /// How many times pairing has been started for this operation.
    type V = nat;

    closed spec fn view(&self) -> nat {
        self.attempts as nat
    }
}

/// The decision after an attempt, and the pairing count after it.
pub open spec fn attempt_step(pairings: nat, result: AttemptResult) -> (nat, AttemptDecision) {
    match result {
        AttemptResult::Completed => (pairings, AttemptDecision::Accept),
        AttemptResult::Failed { encryption } => if pairings == 0 && encryption {
            (1, AttemptDecision::Pair)
        } else {
            (pairings, AttemptDecision::GiveUp)
        },
    }
}

/// The decision after pairing.
pub open spec fn pairing_step(paired: bool) -> PairingDecision {
    if paired {
        PairingDecision::Retry
    } else {
        PairingDecision::GiveUp
    }
}

impl AutoPairRetry {
    /// The policy before the first attempt.
    pub fn new() -> (r: AutoPairRetry)
        ensures
            r@ == 0,
    {
        AutoPairRetry { attempts: 0 }
    }

    /// Decides what follows an attempt.
    pub fn after_attempt(&mut self, result: AttemptResult) -> (d: AttemptDecision)
        ensures
            (final(self)@, d) == attempt_step(old(self)@, result),
    {
        match result {
            AttemptResult::Completed => AttemptDecision::Accept,
            AttemptResult::Failed { encryption } => {
                if self.attempts == 0 && encryption {
                    self.attempts = 1;
                    AttemptDecision::Pair
                } else {
                    AttemptDecision::GiveUp
                }
            },
        }
    }

    /// Decides what follows pairing, from whether it succeeded.
    pub fn after_pairing(&self, paired: bool) -> (d: PairingDecision)
        ensures
            d == pairing_step(paired),
    {
        if paired {
            PairingDecision::Retry
        } else {
            PairingDecision::GiveUp
        }
    }
}

/// An operation pairs at most once: after pairing has been started, no
/// further attempt leads to pairing again.
pub proof fn law_pairs_at_most_once(pairings: nat, first: AttemptResult, second: AttemptResult)
    requires
        attempt_step(pairings, first).1 == AttemptDecision::Pair,
    ensures
        attempt_step(attempt_step(pairings, first).0, second).1 != AttemptDecision::Pair,
{
}

/// A fresh operation runs at most twice: the second attempt is accepted or
/// given up, never followed by a third.
pub proof fn law_at_most_two_attempts(first: AttemptResult, second: AttemptResult)
    ensures
        attempt_step(0, first).1 == AttemptDecision::Pair ==> (attempt_step(
            attempt_step(0, first).0,
            second,
        ).1 == AttemptDecision::Accept || attempt_step(attempt_step(0, first).0, second).1
            == AttemptDecision::GiveUp),
{
}

/// A completed attempt is always judged by its result, and a failure that is
/// not for want of encryption is always reported, whatever came before.
pub proof fn law_only_encryption_failures_pair(pairings: nat, result: AttemptResult)
    ensures
        result == AttemptResult::Completed ==> attempt_step(pairings, result).1
            == AttemptDecision::Accept,
        result == (AttemptResult::Failed { encryption: false }) ==> attempt_step(
            pairings,
            result,
        ).1 == AttemptDecision::GiveUp,
        attempt_step(pairings, result).1 == AttemptDecision::Pair ==> result == (
        AttemptResult::Failed { encryption: true }) && pairings == 0,
{
}

} // verus!
