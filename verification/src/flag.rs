use vstd::prelude::*;

verus! {

/// How long the poll loop sleeps between two samples of the flag, in
/// nanoseconds. Deliberately tiny: the loop is a busy wait.
pub const POLL_SLEEP_NANOS: u64 = 100;

/// The four protocol states that share the single flag byte at the head
/// of the region. Exactly one side may act in each state.
#[derive(Clone, Copy, PartialEq, Eq, Structural, Debug)]
pub enum Flag {
    /// A transition is in progress; neither side may touch the region.
    Intermediate,
    /// Result data is valid and waits for the producer.
    OutputReady,
    /// Input data is valid and waits for the worker.
    InputReady,
    /// The producer signals the end of the session.
    NoMoreInput,
}

/// The byte that encodes each protocol state.
pub open spec fn flag_byte(f: Flag) -> u8 {
    match f {
        Flag::Intermediate => 0u8,
        Flag::OutputReady => 1u8,
        Flag::InputReady => 2u8,
        Flag::NoMoreInput => 3u8,
    }
}

/// The state a byte decodes to, if any.
pub open spec fn spec_decode_flag(b: u8) -> Option<Flag> {
    if b == 0 {
        Some(Flag::Intermediate)
    } else if b == 1 {
        Some(Flag::OutputReady)
    } else if b == 2 {
        Some(Flag::InputReady)
    } else if b == 3 {
        Some(Flag::NoMoreInput)
    } else {
        None
    }
}

pub fn encode_flag(f: Flag) -> (b: u8)
    ensures
        b == flag_byte(f),
{
    match f {
        Flag::Intermediate => 0,
        Flag::OutputReady => 1,
        Flag::InputReady => 2,
        Flag::NoMoreInput => 3,
    }
}

pub fn decode_flag(b: u8) -> (f: Option<Flag>)
    ensures
        f == spec_decode_flag(b),
{
    if b == 0 {
        Some(Flag::Intermediate)
    } else if b == 1 {
        Some(Flag::OutputReady)
    } else if b == 2 {
        Some(Flag::InputReady)
    } else if b == 3 {
        Some(Flag::NoMoreInput)
    } else {
        None
    }
}

/// The state the worker publishes at startup. Nothing has been requested
/// yet, so the empty initial output is trivially available, and the
/// producer may take the first turn.
pub fn initial_flag() -> (f: Flag)
    ensures
        f == Flag::OutputReady,
{
    Flag::OutputReady
}

/// What the worker does after sampling the flag byte once.
#[derive(Clone, Copy, PartialEq, Eq, Structural, Debug)]
pub enum PollAction {
    /// Not the worker's turn: sleep and sample again.
    Wait,
    /// Input is ready: take the turn and process it.
    RunCycle,
    /// The session is over: acknowledge and stop.
    Shutdown,
}

/// The worker's reaction to each possible flag byte. Only `InputReady`
/// starts a cycle and only `NoMoreInput` ends the session; every other
/// byte, a foreign one included, leaves the region alone.
pub open spec fn poll_action_of(b: u8) -> PollAction {
    if b == flag_byte(Flag::InputReady) {
        PollAction::RunCycle
    } else if b == flag_byte(Flag::NoMoreInput) {
        PollAction::Shutdown
    } else {
        PollAction::Wait
    }
}

pub fn poll_decision(b: u8) -> (a: PollAction)
    ensures
        a == poll_action_of(b),
{
    if b == 2 {
        PollAction::RunCycle
    } else if b == 3 {
        PollAction::Shutdown
    } else {
        PollAction::Wait
    }
}

/// The exact sequence of flag values the worker writes after sampling
/// the byte `b`, in order.
pub open spec fn worker_writes(b: u8) -> Seq<Flag> {
    match poll_action_of(b) {
        PollAction::RunCycle => seq![Flag::Intermediate, Flag::OutputReady],
        PollAction::Shutdown => seq![Flag::Intermediate],
        PollAction::Wait => seq![],
    }
}

/// Writing `InputReady` is the producer's exclusive right: no reaction of
/// the worker ever writes it.
pub proof fn lemma_worker_never_writes_input_ready(b: u8)
    ensures
        forall|i: int|
            0 <= i < worker_writes(b).len() ==> worker_writes(b)[i] != Flag::InputReady,
{
}

/// Starting from `InputReady`, the worker's only reachable write sequence
/// is `Intermediate` then `OutputReady`.
pub proof fn lemma_input_ready_sequence()
    ensures
        poll_action_of(flag_byte(Flag::InputReady)) == PollAction::RunCycle,
        worker_writes(flag_byte(Flag::InputReady)) =~= seq![Flag::Intermediate, Flag::OutputReady],
{
}

/// Starting from `NoMoreInput`, the worker's only reachable write sequence
/// is `Intermediate`, after which it stops polling.
pub proof fn lemma_no_more_input_sequence()
    ensures
        poll_action_of(flag_byte(Flag::NoMoreInput)) == PollAction::Shutdown,
        worker_writes(flag_byte(Flag::NoMoreInput)) =~= seq![Flag::Intermediate],
{
}

/// One byte holds one state: no two protocol states share an encoding,
/// so the flag can never hold two writer-intended values at once.
pub proof fn lemma_flag_encoding_injective(f1: Flag, f2: Flag)
    requires
        flag_byte(f1) == flag_byte(f2),
    ensures
        f1 == f2,
{
}

/// Decoding inverts encoding: every state round-trips through its byte.
pub proof fn lemma_flag_round_trip(f: Flag)
    ensures
        spec_decode_flag(flag_byte(f)) == Some(f),
{
}

} // verus!
