//! The synchronous callback bridge, seen from the calling thread.
//!
//! A native thread that needs an answer from a script function cannot run the
//! function itself: only the host's main thread may. The caller therefore
//! creates a [`PendingCall`], hands the call to the main thread's queue and
//! sleeps. The completion handler, run on the main thread, writes what the
//! script function produced into the pending call and wakes the caller, who
//! then takes the answer out.
//!
//! This module holds every decision of that exchange. Queueing and sleeping
//! are done by the embedding code: [`invoke`] takes them as two steps and
//! runs the exchange around them.
//!
//! What goes to the script function and what comes back are owned values. A
//! caller may sleep for any length of time, and nothing that it borrowed from
//! the engine is sure to live that long.

use vstd::prelude::*;

verus! {

/// Why an invocation did not yield a value.
#[derive(Clone, Debug, PartialEq, Eq)]
pub enum BridgeError {
    /// The main thread's queue did not take the call.
    EnqueueFailure,
    /// The lock that guards the pending call was poisoned by a panic.
    PoisonedState,
    /// The caller woke up and found no recognisable answer.
    UnknownReturnValue,
    /// The script function itself failed; the reason is the host's.
    ScriptError(String),
}

/// The kind of failure that the host is told.
#[derive(Clone, Copy, Debug, PartialEq, Eq)]
pub enum FailureStatus {
    /// Something went wrong on the way.
    GenericFailure,
    /// What the script function returned is of no use.
    InvalidArg,
}

impl BridgeError {
    /// The reason in words.
    pub open spec fn reason_text(self) -> Seq<char> {
        match self {
            BridgeError::EnqueueFailure => "EnqueueFailure: the main thread takes no calls"@,
            BridgeError::PoisonedState => "PoisonError: PoisonError { .. }"@,
            BridgeError::UnknownReturnValue => "UNKNOWN_RETURN_VALUE. Cannot convert unknown"@,
            BridgeError::ScriptError(reason) => reason@,
        }
    }

    /// The kind of failure.
    pub open spec fn status_of(self) -> FailureStatus {
        match self {
            BridgeError::UnknownReturnValue => FailureStatus::InvalidArg,
            _ => FailureStatus::GenericFailure,
        }
    }

    /// The reason that the host's error object carries. A script error keeps
    /// the reason it came with.
    pub fn reason(&self) -> (text: String)
        ensures
            text@ == self.reason_text(),
    {
        match self {
            BridgeError::EnqueueFailure => "EnqueueFailure: the main thread takes no calls".to_string(),
            BridgeError::PoisonedState => "PoisonError: PoisonError { .. }".to_string(),
            BridgeError::UnknownReturnValue => "UNKNOWN_RETURN_VALUE. Cannot convert unknown".to_string(),
            BridgeError::ScriptError(reason) => reason.clone(),
        }
    }

    /// The kind of failure that the host's error object carries.
    pub fn status(&self) -> (status: FailureStatus)
        ensures
            status == self.status_of(),
    {
        match self {
            BridgeError::UnknownReturnValue => FailureStatus::InvalidArg,
            _ => FailureStatus::GenericFailure,
        }
    }
}

/// What a script function left behind when it was run.
#[derive(Clone, Debug, PartialEq, Eq)]
pub enum InvocationResult<Ret> {
    /// It returned a value of the expected type.
    Value(Ret),
    /// It threw, or the host reported an error in its place.
    Failure(String),
    /// Nothing usable: not yet answered, or an answer of the wrong shape.
    Unknown,
}

/// The answer a caller gets from a slot holding `slot`.
pub open spec fn settle<Ret>(slot: InvocationResult<Ret>) -> Result<Ret, BridgeError> {
    match slot {
        InvocationResult::Value(v) => Ok(v),
        InvocationResult::Failure(reason) => Err(BridgeError::ScriptError(reason)),
        InvocationResult::Unknown => Err(BridgeError::UnknownReturnValue),
    }
}

/// The result slot of one invocation. It is written by the completion handler
/// and read once by the waiting caller; the embedding code keeps it behind a
/// lock of its own.
pub struct PendingCall<Ret> {
    slot: InvocationResult<Ret>,
}

impl<Ret> View for PendingCall<Ret> {
    type V = InvocationResult<Ret>;

    closed spec fn view(&self) -> InvocationResult<Ret> {
        self.slot
    }
}

impl<Ret> PendingCall<Ret> {
    /// A pending call that nobody has answered yet.
    pub fn new() -> (pending: Self)
        ensures
            pending@ is Unknown,
    {
        PendingCall { slot: InvocationResult::Unknown }
    }

    /// The completion handler's write: the slot now holds `outcome`.
    pub fn complete(&mut self, outcome: InvocationResult<Ret>)
        ensures
            final(self)@ == outcome,
    {
        self.slot = outcome;
    }

    /// Whether the slot holds an answer, be it a value or a failure.
    pub fn is_answered(&self) -> (answered: bool)
        ensures
            answered == !(self@ is Unknown),
    {
        match &self.slot {
            InvocationResult::Unknown => false,
            _ => true,
        }
    }

    /// The caller's read. The answer leaves the slot, which is empty
    /// afterwards, so no answer is ever handed out twice.
    pub fn take(&mut self) -> (answer: Result<Ret, BridgeError>)
        ensures
            answer == settle(old(self)@),
            final(self)@ is Unknown,
    {
        let mut taken = InvocationResult::Unknown;
        std::mem::swap(&mut self.slot, &mut taken);
        match taken {
            InvocationResult::Value(v) => Ok(v),
            InvocationResult::Failure(reason) => Err(BridgeError::ScriptError(reason)),
            InvocationResult::Unknown => Err(BridgeError::UnknownReturnValue),
        }
    }
}

/// What the calling thread does once the queue has answered the enqueue.
#[derive(Clone, Debug, PartialEq, Eq)]
pub enum NextStep {
    /// The call is queued: sleep until the completion handler signals.
    Wait,
    /// The call was not queued: nobody will ever signal, so give up now.
    GiveUp(BridgeError),
}

/// The step that follows an enqueue which the queue `accepted` or not.
pub open spec fn step_after_enqueue(accepted: bool) -> NextStep {
    if accepted {
        NextStep::Wait
    } else {
        NextStep::GiveUp(BridgeError::EnqueueFailure)
    }
}

/// Decides whether the caller may sleep. Sleeping on a call that was never
/// queued would never end.
pub fn after_enqueue(accepted: bool) -> (next: NextStep)
    ensures
        next == step_after_enqueue(accepted),
{
    if accepted {
        NextStep::Wait
    } else {
        NextStep::GiveUp(BridgeError::EnqueueFailure)
    }
}

/// The answer of a caller that wakes up on a slot holding `slot`, with the
/// lock found `poisoned` or sound.
pub open spec fn answer_on_wake<Ret>(slot: InvocationResult<Ret>, poisoned: bool) -> Result<
    Ret,
    BridgeError,
> {
    if poisoned {
        Err(BridgeError::PoisonedState)
    } else {
        settle(slot)
    }
}

/// The caller's last step. Behind a poisoned lock the slot is not trusted and
/// stays as it is; behind a sound one the answer is taken out.
pub fn conclude<Ret>(pending: &mut PendingCall<Ret>, poisoned: bool) -> (answer: Result<
    Ret,
    BridgeError,
>)
    ensures
        answer == answer_on_wake(old(pending)@, poisoned),
        poisoned ==> final(pending)@ == old(pending)@,
        !poisoned ==> final(pending)@ is Unknown,
{
    if poisoned {
        Err(BridgeError::PoisonedState)
    } else {
        pending.take()
    }
}

/// Everything the outside world contributes to one invocation.
#[derive(Clone, Debug, PartialEq, Eq)]
pub struct CallRecord<Ret> {
    /// Whether the main thread's queue took the call.
    pub accepted: bool,
    /// What the completion handler wrote before it signalled, if anything.
    pub written: Option<InvocationResult<Ret>>,
    /// Whether the caller found the lock poisoned when it woke up.
    pub poisoned: bool,
}

/// The slot as the caller finds it: fresh, then written at most once.
pub open spec fn slot_on_wake<Ret>(written: Option<InvocationResult<Ret>>) -> InvocationResult<
    Ret,
> {
    match written {
        Some(outcome) => outcome,
        None => InvocationResult::Unknown,
    }
}

/// What an invocation returns, given what the outside world did.
pub open spec fn invocation_answer<Ret>(record: CallRecord<Ret>) -> Result<Ret, BridgeError> {
    match step_after_enqueue(record.accepted) {
        NextStep::GiveUp(e) => Err(e),
        NextStep::Wait => answer_on_wake(slot_on_wake(record.written), record.poisoned),
    }
}

/// One synchronous invocation, from the calling thread's side. `enqueue`
/// hands the call to the main thread's queue and says whether the queue took
/// it; `wait` sleeps until the completion handler signals and then hands over
/// the pending call, with the news whether the lock around it was poisoned.
///
/// The call is queued first. Only a call that the queue took is waited for:
/// a refused one ends at once with the enqueue error. On waking, the answer
/// is taken out of the pending call, unless the lock was poisoned.
pub fn invoke<Ret, Q, W>(enqueue: Q, wait: W) -> (answer: Result<Ret, BridgeError>) where
    Q: FnOnce() -> bool,
    W: FnOnce() -> (PendingCall<Ret>, bool),

    requires
        call_requires(enqueue, ()),
        call_requires(wait, ()),
    ensures
        exists|accepted: bool| #[trigger]
            call_ensures(enqueue, (), accepted) && match step_after_enqueue(accepted) {
                NextStep::GiveUp(e) => answer == Err::<Ret, BridgeError>(e),
                NextStep::Wait => exists|woken: (PendingCall<Ret>, bool)| #[trigger]
                    call_ensures(wait, (), woken) && answer == answer_on_wake(woken.0@, woken.1),
            },
{
    let accepted = enqueue();
    match after_enqueue(accepted) {
        NextStep::GiveUp(e) => {
            assert(call_ensures(enqueue, (), accepted));
            Err(e)
        },
        NextStep::Wait => {
            let woken = wait();
            let ghost found = woken;
            let (mut pending, poisoned) = woken;
            let answer = conclude(&mut pending, poisoned);
            assert(call_ensures(enqueue, (), accepted));
            assert(call_ensures(wait, (), found) && answer == answer_on_wake(found.0@, found.1));
            answer
        },
    }
}

/// Runs one invocation from start to end on a record of outside events, as
/// the calling thread and the completion handler would: the pending call is
/// made afresh, the queue answers as recorded, and the handler writes what
/// is recorded before the caller wakes.
pub fn replay<Ret>(record: CallRecord<Ret>) -> (answer: Result<Ret, BridgeError>)
    ensures
        answer == invocation_answer(record),
{
    let accepted = record.accepted;
    let poisoned = record.poisoned;
    let written = record.written;
    let enqueue = || -> (taken: bool)
        ensures
            taken == accepted,
        { accepted };
    let wait = || -> (woken: (PendingCall<Ret>, bool))
        ensures
            woken.0@ == slot_on_wake(written),
            woken.1 == poisoned,
        {
            let mut pending = PendingCall::new();
            match written {
                Some(outcome) => {
                    pending.complete(outcome);
                },
                None => {},
            }
            (pending, poisoned)
        };
    invoke(enqueue, wait)
}

/// An invocation yields a value exactly when the call was queued, the lock
/// was sound and the completion handler wrote a value; the value is then the
/// very one that was written.
pub proof fn lemma_success_is_exact<Ret>(record: CallRecord<Ret>)
    ensures
        invocation_answer(record) is Ok <==> record.accepted && !record.poisoned
            && record.written matches Some(InvocationResult::Value(_)),
        invocation_answer(record) matches Ok(v) ==> record.written == Some(
            InvocationResult::Value(v),
        ),
{
}

/// Whatever value the script function returned is what the caller gets,
/// unchanged.
pub proof fn lemma_value_comes_back<Ret>(value: Ret)
    ensures
        invocation_answer(
            CallRecord {
                accepted: true,
                written: Some(InvocationResult::Value(value)),
                poisoned: false,
            },
        ) == Ok::<Ret, BridgeError>(value),
{
}

/// Where the script function failed, the caller gets a script error that
/// carries the host's reason, and nothing else.
pub proof fn lemma_failure_is_script_error<Ret>(reason: String)
    ensures
        invocation_answer(
            CallRecord::<Ret> {
                accepted: true,
                written: Some(InvocationResult::Failure(reason)),
                poisoned: false,
            },
        ) == Err::<Ret, BridgeError>(BridgeError::ScriptError(reason)),
{
}

/// A caller that is woken although the completion handler wrote nothing, or
/// wrote an answer of no known shape, gets the unknown-return error: it
/// neither waits on nor makes up a value.
pub proof fn lemma_silence_is_unknown<Ret>()
    ensures
        invocation_answer(CallRecord::<Ret> { accepted: true, written: None, poisoned: false })
            == Err::<Ret, BridgeError>(BridgeError::UnknownReturnValue),
        invocation_answer(
            CallRecord::<Ret> {
                accepted: true,
                written: Some(InvocationResult::Unknown),
                poisoned: false,
            },
        ) == Err::<Ret, BridgeError>(BridgeError::UnknownReturnValue),
{
}

/// A poisoned lock yields the poison error whatever the slot holds, and
/// spoils nothing but its own call: another call, with a pending call of its
/// own behind a sound lock, is answered as if the first had never been made.
pub proof fn lemma_poison_stays_local<Ret>(spoiled: CallRecord<Ret>, other: CallRecord<Ret>)
    requires
        spoiled.accepted,
        spoiled.poisoned,
        other.accepted,
        !other.poisoned,
    ensures
        invocation_answer(spoiled) == Err::<Ret, BridgeError>(BridgeError::PoisonedState),
        invocation_answer(other) == settle(slot_on_wake(other.written)),
{
}

/// A call that the queue refused ends with the enqueue error, without a wait.
pub proof fn lemma_refusal_ends_the_call<Ret>(record: CallRecord<Ret>)
    requires
        !record.accepted,
    ensures
        invocation_answer(record) == Err::<Ret, BridgeError>(BridgeError::EnqueueFailure),
        step_after_enqueue(record.accepted) != NextStep::Wait,
{
}

/// The slots of all calls in flight after the completion handler of `call`
/// has written `outcome`. Every call has a slot of its own.
pub open spec fn deliver<Ret>(
    slots: Map<nat, InvocationResult<Ret>>,
    call: nat,
    outcome: InvocationResult<Ret>,
) -> Map<nat, InvocationResult<Ret>> {
    slots.insert(call, outcome)
}

/// The slots after the completion handlers of `completions` have run, in the
/// order in which the main thread ran them.
pub open spec fn deliver_all<Ret>(
    slots: Map<nat, InvocationResult<Ret>>,
    completions: Seq<(nat, InvocationResult<Ret>)>,
) -> Map<nat, InvocationResult<Ret>>
    decreases completions.len(),
{
    if completions.len() == 0 {
        slots
    } else {
        deliver(
            deliver_all(slots, completions.drop_last()),
            completions.last().0,
            completions.last().1,
        )
    }
}

/// What the caller of `call` is answered when it wakes behind a sound lock.
pub open spec fn collect<Ret>(slots: Map<nat, InvocationResult<Ret>>, call: nat) -> Result<
    Ret,
    BridgeError,
> {
    settle(slots[call])
}

/// The slots after the caller of `call` has taken its answer.
pub open spec fn after_collect<Ret>(slots: Map<nat, InvocationResult<Ret>>, call: nat) -> Map<
    nat,
    InvocationResult<Ret>,
> {
    slots.insert(call, InvocationResult::Unknown)
}

/// Whether every call occurs at most once among `completions`.
pub open spec fn each_call_once<Ret>(completions: Seq<(nat, InvocationResult<Ret>)>) -> bool {
    forall|i: int, j: int|
        0 <= i < j < completions.len() ==> (#[trigger] completions[i]).0 != (
        #[trigger] completions[j]).0
}

/// However the completions of concurrent calls are ordered, each caller is
/// answered with the outcome of its own call and of no other; and once it has
/// taken the answer, the answer is gone: a second take finds the slot empty.
pub proof fn lemma_answers_reach_their_callers<Ret>(
    slots: Map<nat, InvocationResult<Ret>>,
    completions: Seq<(nat, InvocationResult<Ret>)>,
    k: int,
)
    requires
        each_call_once(completions),
        0 <= k < completions.len(),
    ensures
        collect(deliver_all(slots, completions), completions[k].0) == settle(completions[k].1),
        collect(
            after_collect(deliver_all(slots, completions), completions[k].0),
            completions[k].0,
        ) == Err::<Ret, BridgeError>(BridgeError::UnknownReturnValue),
    decreases completions.len(),
{
    let last = completions.len() - 1;
    if k < last {
        let earlier = completions.drop_last();
        assert(each_call_once(earlier)) by {
            assert forall|i: int, j: int| 0 <= i < j < earlier.len() implies (
            #[trigger] earlier[i]).0 != (#[trigger] earlier[j]).0 by {
                assert(earlier[i] == completions[i]);
                assert(earlier[j] == completions[j]);
            }
        }
        assert(earlier[k] == completions[k]);
        lemma_answers_reach_their_callers(slots, earlier, k);
        assert(completions[k].0 != completions[last].0);
    }
}

/// Taking the answer of one call leaves the answers of all others in place.
pub proof fn lemma_collect_leaves_others<Ret>(
    slots: Map<nat, InvocationResult<Ret>>,
    call: nat,
    other: nat,
)
    requires
        call != other,
    ensures
        collect(after_collect(slots, call), other) == collect(slots, other),
{
}

} // verus!
