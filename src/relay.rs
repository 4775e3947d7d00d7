//! The read loop: what to do with each outcome of a read from the serial link.

use vstd::prelude::*;

verus! {

/// The result of one blocking read from the link.
#[derive(Clone, Debug)]
pub enum ReadOutcome {
    /// The bytes received by this read.
    Data(Vec<u8>),
    /// The read timed out with nothing received.
    TimedOut,
    /// Any other read error.
    Failed,
}

#[derive(Clone, Copy, Debug, PartialEq, Eq, Structural)]
pub enum LoopState {
    Running,
    Stopped,
}

/// What the loop does after a read.
#[derive(Clone, Debug)]
pub enum LoopAction {
    /// Write these bytes to standard output and flush.
    Emit(Vec<u8>),
    /// Nothing arrived; read again.
    Wait,
    /// Leave the loop.
    Stop,
}

impl LoopAction {
    /// The bytes this action relays to standard output.
    pub open spec fn relayed(self) -> Seq<u8> {
        match self {
            LoopAction::Emit(b) => b@,
            _ => Seq::empty(),
        }
    }
}

/// One transition: the next state and the bytes relayed.
pub open spec fn step_of(s: LoopState, o: ReadOutcome) -> (LoopState, Seq<u8>) {
    match s {
        LoopState::Stopped => (LoopState::Stopped, Seq::empty()),
        LoopState::Running => match o {
            ReadOutcome::Data(b) => (LoopState::Running, b@),
            ReadOutcome::TimedOut => (LoopState::Running, Seq::empty()),
            ReadOutcome::Failed => (LoopState::Stopped, Seq::empty()),
        },
    }
}

/// The state after the reads `outs`, and everything relayed on the way.
pub open spec fn run_of(s: LoopState, outs: Seq<ReadOutcome>) -> (LoopState, Seq<u8>)
    decreases outs.len(),
{
    if outs.len() == 0 {
        (s, Seq::empty())
    } else {
        let (s1, b1) = step_of(s, outs[0]);
        let (s2, b2) = run_of(s1, outs.drop_first());
        (s2, b1 + b2)
    }
}

/// The read loop's state.
pub struct ReadLoop {
    pub state: LoopState,
}

impl ReadLoop {
    pub fn new() -> (r: ReadLoop)
        ensures
            r.state == LoopState::Running,
    {
        ReadLoop { state: LoopState::Running }
    }

    pub fn is_running(&self) -> (r: bool)
        ensures
            r == (self.state == LoopState::Running),
    {
        match self.state {
            LoopState::Running => true,
            LoopState::Stopped => false,
        }
    }

    /// Takes one read's outcome: received bytes are relayed unchanged, a timeout
    /// is a no-op, any other error stops the loop, and a stopped loop stays
    /// stopped.
    pub fn handle(&mut self, outcome: ReadOutcome) -> (a: LoopAction)
        ensures
            (final(self).state, a.relayed()) == step_of(old(self).state, outcome),
            a is Stop <==> final(self).state == LoopState::Stopped,
            a is Wait <==> (old(self).state == LoopState::Running && outcome is TimedOut),
    {
        match self.state {
            LoopState::Stopped => LoopAction::Stop,
            LoopState::Running => match outcome {
                ReadOutcome::Data(b) => LoopAction::Emit(b),
                ReadOutcome::TimedOut => LoopAction::Wait,
                ReadOutcome::Failed => {
                    self.state = LoopState::Stopped;
                    LoopAction::Stop
                },
            },
        }
    }
}

/// Running over `a` then `b` relays what `a` relays followed by what `b`
/// relays from the state `a` left: nothing is merged or reordered across reads.
pub proof fn lemma_run_concat(s: LoopState, a: Seq<ReadOutcome>, b: Seq<ReadOutcome>)
    ensures
        run_of(s, a + b) == ({
            let (s1, x) = run_of(s, a);
            let (s2, y) = run_of(s1, b);
            (s2, x + y)
        }),
    decreases a.len(),
{
    if a.len() == 0 {
        assert(a + b =~= b);
        let (s2, y) = run_of(s, b);
        assert(Seq::<u8>::empty() + y =~= y);
    } else {
        assert((a + b).drop_first() =~= a.drop_first() + b);
        lemma_run_concat(step_of(s, a[0]).0, a.drop_first(), b);
        let (s1, b1) = step_of(s, a[0]);
        let (s2, x) = run_of(s1, a.drop_first());
        let (s3, y) = run_of(s2, b);
        assert(b1 + (x + y) =~= (b1 + x) + y);
    }
}

proof fn lemma_run_single(s: LoopState, o: ReadOutcome)
    ensures
        run_of(s, seq![o]) == step_of(s, o),
{
    let t = seq![o];
    assert(t.drop_first() =~= Seq::<ReadOutcome>::empty());
    let (s1, b1) = step_of(s, o);
    assert(run_of(s1, t.drop_first()) == (s1, Seq::<u8>::empty()));
    assert(b1 + Seq::<u8>::empty() =~= b1);
}

/// A stopped loop relays nothing more, whatever is read.
pub proof fn lemma_stopped_is_final(outs: Seq<ReadOutcome>)
    ensures
        run_of(LoopState::Stopped, outs) == (LoopState::Stopped, Seq::<u8>::empty()),
    decreases outs.len(),
{
    if outs.len() > 0 {
        lemma_stopped_is_final(outs.drop_first());
        assert(Seq::<u8>::empty() + Seq::<u8>::empty() =~= Seq::<u8>::empty());
    }
}

/// A timeout neither ends the loop nor relays anything: reading one between
/// `a` and `b` changes nothing.
pub proof fn lemma_timeout_continues(s: LoopState, a: Seq<ReadOutcome>, b: Seq<ReadOutcome>)
    ensures
        run_of(s, a + seq![ReadOutcome::TimedOut] + b) == run_of(s, a + b),
{
    lemma_run_concat(s, a + seq![ReadOutcome::TimedOut], b);
    lemma_run_concat(s, a, seq![ReadOutcome::TimedOut]);
    lemma_run_concat(s, a, b);
    let (s1, x) = run_of(s, a);
    lemma_run_single(s1, ReadOutcome::TimedOut);
    assert(x + Seq::<u8>::empty() =~= x);
}

/// Any other read error ends the loop: whatever follows it, the run stops and
/// relays exactly what came before the error.
pub proof fn lemma_failure_stops(s: LoopState, a: Seq<ReadOutcome>, b: Seq<ReadOutcome>)
    ensures
        run_of(s, a + seq![ReadOutcome::Failed] + b) == (LoopState::Stopped, run_of(s, a).1),
{
    let f = seq![ReadOutcome::Failed];
    lemma_run_concat(s, a + f, b);
    lemma_run_concat(s, a, f);
    let (s1, x) = run_of(s, a);
    lemma_run_single(s1, ReadOutcome::Failed);
    lemma_stopped_is_final(b);
    assert(x + Seq::<u8>::empty() =~= x);
}

} // verus!
