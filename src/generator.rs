use vstd::prelude::*;

use crate::fiber::{Stack, StackPointer, SwitchResult, STACK_SIZE};

verus! {

/// What one resumption of a generator produced.
#[derive(Clone, Copy, PartialEq, PartialOrd, Eq, Ord, Debug, Hash)]
pub enum GeneratorState<Y, R> {
    Yielded(Y),
    Complete(R),
}

/// The message the body side leaves for the resumer each time it switches
/// out: a yielded value, the return value, or a captured panic.
pub enum YieldPayload<Y, R, P> {
    Yielded(Y),
    Complete(R),
    Panic(P),
}

impl<Y, R, P> YieldPayload<Y, R, P> {
    /// Packages what the body's panic boundary caught: a normal return
    /// becomes `Complete`, a caught panic becomes `Panic`.
    pub fn from_outcome(outcome: Result<R, P>) -> (r: Self)
        ensures
            r == package::<Y, R, P>(outcome),
    {
        match outcome {
            Ok(v) => YieldPayload::Complete(v),
            Err(p) => YieldPayload::Panic(p),
        }
    }
}

/// What `from_outcome` makes of an outcome.
pub open spec fn package<Y, R, P>(outcome: Result<R, P>) -> YieldPayload<Y, R, P> {
    match outcome {
        Ok(v) => YieldPayload::Complete(v),
        Err(p) => YieldPayload::Panic(p),
    }
}

/// A resumable computation: each resumption takes an argument of type `R`
/// and runs until the computation yields or completes.
pub trait Generator<R> {
    type Yield;

    type Return;

    fn resume(&mut self, arg: R) -> GeneratorState<Self::Yield, Self::Return>;
}

/// Where a generator stands between two resumptions.
pub enum Phase {
    /// Not started: the body is still held.
    Fresh,
    /// Suspended inside the body, to be continued at this pointer.
    Suspended(StackPointer),
    /// Returned, panicked, or handed its body out to be started.
    Done,
}

/// The phase in which a switch out of the body leaves the generator when
/// the body is still alive: suspended if the switch delivered a pointer.
pub open spec fn suspended_on(stack: Option<StackPointer>) -> Phase {
    match stack {
        Some(sp) => Phase::Suspended(sp),
        None => Phase::Done,
    }
}

/// What the resumer returns for a message from the body: the value of a
/// yield or of the return, or the panic to raise again.
pub open spec fn resume_output<Y, R, P>(payload: YieldPayload<Y, R, P>) -> Result<GeneratorState<Y, R>, P> {
    match payload {
        YieldPayload::Yielded(y) => Ok(GeneratorState::Yielded(y)),
        YieldPayload::Complete(v) => Ok(GeneratorState::Complete(v)),
        YieldPayload::Panic(p) => Err(p),
    }
}

/// The phase after the resumer has read a message from the body that came
/// with the body's new suspended pointer `stack`.
pub open spec fn phase_after<Y, R, P>(stack: Option<StackPointer>, payload: YieldPayload<Y, R, P>) -> Phase {
    match payload {
        YieldPayload::Yielded(_) => suspended_on(stack),
        _ => Phase::Done,
    }
}

/// Replays successive resumptions of a generator in phase `p` whose body
/// answers them with `msgs` (each message with the pointer its switch
/// delivered): the answers, or `None` when a resumption would come after
/// the generator is done.
pub open spec fn replay<Y, R, P>(p: Phase, msgs: Seq<(Option<StackPointer>, YieldPayload<Y, R, P>)>) -> Option<Seq<Result<GeneratorState<Y, R>, P>>>
    decreases msgs.len(),
{
    if msgs.len() == 0 {
        Some(Seq::empty())
    } else if p == Phase::Done {
        None
    } else {
        match replay(phase_after(msgs[0].0, msgs[0].1), msgs.drop_first()) {
            Some(rest) => Some(seq![resume_output(msgs[0].1)] + rest),
            None => None,
        }
    }
}

/// The phase a generator in phase `p` is left in by those resumptions.
pub open spec fn replay_phase<Y, R, P>(p: Phase, msgs: Seq<(Option<StackPointer>, YieldPayload<Y, R, P>)>) -> Phase
    decreases msgs.len(),
{
    if msgs.len() == 0 {
        p
    } else {
        replay_phase(phase_after(msgs[0].0, msgs[0].1), msgs.drop_first())
    }
}

proof fn lemma_replay_len<Y, R, P>(p: Phase, msgs: Seq<(Option<StackPointer>, YieldPayload<Y, R, P>)>)
    requires
        replay(p, msgs) is Some,
    ensures
        replay(p, msgs)->0.len() == msgs.len(),
    decreases msgs.len(),
{
    if msgs.len() > 0 {
        lemma_replay_len(phase_after(msgs[0].0, msgs[0].1), msgs.drop_first());
    }
}

/// Stopping a run of resumptions early changes none of the answers given
/// so far.
pub proof fn lemma_replay_prefix<Y, R, P>(p: Phase, msgs: Seq<(Option<StackPointer>, YieldPayload<Y, R, P>)>, k: int)
    requires
        0 <= k <= msgs.len(),
        replay(p, msgs) is Some,
    ensures
        replay(p, msgs.take(k)) == Some(replay(p, msgs)->0.take(k)),
    decreases k,
{
    let all = replay(p, msgs)->0;
    if k == 0 {
        assert(msgs.take(0) =~= Seq::<(Option<StackPointer>, YieldPayload<Y, R, P>)>::empty());
        assert(all.take(0) =~= Seq::<Result<GeneratorState<Y, R>, P>>::empty());
    } else {
        let next = phase_after(msgs[0].0, msgs[0].1);
        let rest = replay(next, msgs.drop_first())->0;
        lemma_replay_prefix(next, msgs.drop_first(), k - 1);
        lemma_replay_len(next, msgs.drop_first());
        assert(msgs.take(k).drop_first() =~= msgs.drop_first().take(k - 1));
        assert(msgs.take(k)[0] == msgs[0]);
        assert(all == seq![resume_output(msgs[0].1)] + rest);
        assert(all.take(k) =~= seq![resume_output(msgs[0].1)] + rest.take(k - 1));
    }
}

/// The messages of a body that yields `0, 1, ..., n - 1`, where `n` is
/// `sps.len()`, the i-th time suspending at `sps[i]`, and then returns the
/// argument of the last of the `n + 1` resumptions `resumes`.
pub open spec fn counting_messages<P>(resumes: Seq<int>, sps: Seq<StackPointer>) -> Seq<(Option<StackPointer>, YieldPayload<int, int, P>)> {
    Seq::new(
        resumes.len(),
        |i: int|
            if i < sps.len() {
                (Some(sps[i]), YieldPayload::Yielded(i))
            } else {
                (None, YieldPayload::Complete(resumes.last()))
            },
    )
}

/// What the resumptions of that body return: `Yielded(0)` up to
/// `Yielded(n - 1)`, then `Complete` with the last resume argument.
pub open spec fn counting_answers<P>(resumes: Seq<int>, n: int) -> Seq<Result<GeneratorState<int, int>, P>> {
    Seq::new(
        resumes.len(),
        |i: int|
            if i < n {
                Ok(GeneratorState::Yielded(i))
            } else {
                Ok(GeneratorState::Complete(resumes.last()))
            },
    )
}

proof fn lemma_counting_suffix<P>(resumes: Seq<int>, sps: Seq<StackPointer>, k: int, p: Phase)
    requires
        resumes.len() == sps.len() + 1,
        0 <= k <= resumes.len(),
        p != Phase::Done || k == resumes.len(),
    ensures
        replay(p, counting_messages::<P>(resumes, sps).subrange(k, resumes.len() as int))
            == Some(counting_answers::<P>(resumes, sps.len() as int).subrange(k, resumes.len() as int)),
        replay_phase(p, counting_messages::<P>(resumes, sps).subrange(k, resumes.len() as int))
            == (if k == resumes.len() { p } else { Phase::Done }),
    decreases resumes.len() - k,
{
    let n = resumes.len() as int;
    let msgs = counting_messages::<P>(resumes, sps);
    let answers = counting_answers::<P>(resumes, sps.len() as int);
    let tail = msgs.subrange(k, n);
    if k < n {
        let next = phase_after(msgs[k].0, msgs[k].1);
        if k < sps.len() {
            assert(next == Phase::Suspended(sps[k]));
        } else {
            assert(next == Phase::Done);
        }
        lemma_counting_suffix::<P>(resumes, sps, k + 1, next);
        assert(tail.drop_first() =~= msgs.subrange(k + 1, n));
        assert(answers.subrange(k, n) =~= seq![resume_output(msgs[k].1)] + answers.subrange(k + 1, n));
    } else {
        assert(tail =~= Seq::<(Option<StackPointer>, YieldPayload<int, int, P>)>::empty());
        assert(answers.subrange(k, n) =~= Seq::<Result<GeneratorState<int, int>, P>>::empty());
    }
}

/// A fresh generator whose body yields `0, ..., n - 1` and then returns the
/// argument of its last resumption answers `n + 1` resumptions with
/// `Yielded(0), ..., Yielded(n - 1)` and `Complete` with that argument, is
/// never resumed once done, and is done afterwards; the first `k` of those
/// resumptions alone give the first `k` answers.
pub proof fn lemma_yields_then_returns<P>(resumes: Seq<int>, sps: Seq<StackPointer>)
    requires
        resumes.len() == sps.len() + 1,
    ensures
        replay(Phase::Fresh, counting_messages::<P>(resumes, sps))
            == Some(counting_answers::<P>(resumes, sps.len() as int)),
        replay_phase(Phase::Fresh, counting_messages::<P>(resumes, sps)) == Phase::Done,
        forall|k: int|
            0 <= k <= resumes.len() ==> replay(Phase::Fresh, #[trigger] counting_messages::<P>(resumes, sps).take(k))
                == Some(counting_answers::<P>(resumes, sps.len() as int).take(k)),
{
    let msgs = counting_messages::<P>(resumes, sps);
    let answers = counting_answers::<P>(resumes, sps.len() as int);
    lemma_counting_suffix::<P>(resumes, sps, 0, Phase::Fresh);
    assert(msgs.subrange(0, resumes.len() as int) =~= msgs);
    assert(answers.subrange(0, resumes.len() as int) =~= answers);
    assert forall|k: int| 0 <= k <= resumes.len() implies replay(Phase::Fresh, #[trigger] msgs.take(k)) == Some(answers.take(k)) by {
        lemma_replay_prefix(Phase::Fresh, msgs, k);
    }
}

/// A panic caught in the body comes out of the resumption as the same
/// payload, and the generator is done.
pub proof fn lemma_panic_round_trip<Y, R, P>(p: P, stack: Option<StackPointer>)
    ensures
        resume_output(package::<Y, R, P>(Err(p))) == Err::<GeneratorState<Y, R>, P>(p),
        phase_after(stack, package::<Y, R, P>(Err(p))) == Phase::Done,
{
}

/// The switch the resumer has to make to run the body until its next yield.
pub enum ResumeStep<F> {
    /// First resumption: start `func` on a fresh stack whose top is `top`.
    Enter { top: StackPointer, func: F },
    /// Later resumption: continue the suspended body at `target`.
    Switch { target: StackPointer },
}

/// A resumable computation running on a stack of its own: the stack, the
/// pointer at which the body is suspended, and the body until it is started.
pub struct StackfulGenerator<F> {
    stack: Stack,
    result: Option<StackPointer>,
    func: Option<F>,
}

impl<F> StackfulGenerator<F> {
    /// Suspended while a pointer is held; otherwise fresh while the body is
    /// held, and done once it is not.
    pub closed spec fn phase(&self) -> Phase {
        match self.result {
            Some(sp) => Phase::Suspended(sp),
            None => if self.func is Some {
                Phase::Fresh
            } else {
                Phase::Done
            },
        }
    }

    /// The body, while it has not been handed out.
    pub closed spec fn body(&self) -> Option<F> {
        self.func
    }

    /// Base address of the stack the generator owns.
    pub closed spec fn stack_base(&self) -> nat {
        self.stack@
    }

    /// A generator that will run `f` on `stack` when first resumed.
    pub fn new(stack: Stack, f: F) -> (r: Self)
        ensures
            r.phase() == Phase::Fresh,
            r.body() == Some(f),
            r.stack_base() == stack@,
    {
        StackfulGenerator { stack, result: None, func: Some(f) }
    }

    /// Whether the generator is done: resuming it again is not allowed.
    pub fn is_done(&self) -> (r: bool)
        ensures
            r == (self.phase() == Phase::Done),
    {
        self.result.is_none() && self.func.is_none()
    }

    /// Decides the switch that a resumption makes. A fresh generator hands
    /// out its body with the top of its stack; a suspended one gives the
    /// pointer to continue at and stays as it is until the body answers.
    pub fn begin_resume(&mut self) -> (r: ResumeStep<F>)
        requires
            old(self).phase() != Phase::Done,
        ensures
            final(self).stack_base() == old(self).stack_base(),
            final(self).body() is None,
            old(self).phase() == Phase::Fresh ==> {
                &&& r is Enter
                &&& r->top@ == old(self).stack_base() + STACK_SIZE
                &&& Some(r->func) == old(self).body()
                &&& final(self).phase() == Phase::Done
            },
            old(self).phase() is Suspended ==> {
                &&& r is Switch
                &&& old(self).phase() == Phase::Suspended(r->target)
                &&& final(self).phase() == old(self).phase()
            },
    {
        match self.result {
            Some(sp) => {
                self.func = None;
                ResumeStep::Switch { target: sp }
            },
            None => ResumeStep::Enter { top: self.stack.top(), func: self.func.take().unwrap() },
        }
    }

    /// Reads the body's message after the switch of a resumption: a yield
    /// keeps the body suspended at the pointer the switch delivered; a
    /// return or a panic ends it.
    pub fn finish_resume<Y, R, P>(&mut self, stack: Option<StackPointer>, payload: YieldPayload<Y, R, P>) -> (r: Result<GeneratorState<Y, R>, P>)
        requires
            old(self).body() is None,
        ensures
            r == resume_output(payload),
            final(self).phase() == phase_after(stack, payload),
            final(self).body() is None,
            final(self).stack_base() == old(self).stack_base(),
    {
        match payload {
            YieldPayload::Yielded(y) => {
                self.result = stack;
                Ok(GeneratorState::Yielded(y))
            },
            YieldPayload::Complete(v) => {
                self.result = None;
                Ok(GeneratorState::Complete(v))
            },
            YieldPayload::Panic(p) => {
                self.result = None;
                Err(p)
            },
        }
    }

    /// Takes the generator apart when it is dropped: the pointer at which
    /// the body must be resumed once more to unwind, if it is suspended, and
    /// the stack, to be released after that.
    pub fn retire(self) -> (r: (Option<StackPointer>, Stack))
        ensures
            r.0 is Some <==> self.phase() is Suspended,
            self.phase() is Suspended ==> self.phase() == Phase::Suspended(r.0->0),
            r.1@ == self.stack_base(),
    {
        (self.result, self.stack)
    }
}

/// The body's side of a generator: the pointer at which the resumer is
/// suspended, replaced by a fresh one at every switch back into the body.
#[derive(Clone, Copy, Debug)]
pub struct YieldHandle {
    stack: StackPointer,
}

/// The resume argument that a switch into the body carries: the zero word
/// is the resumer's signal that the generator is being dropped, any other
/// word addresses the argument.
pub open spec fn resume_argument(payload: usize) -> Option<usize> {
    if payload == 0 {
        None
    } else {
        Some(payload)
    }
}

impl YieldHandle {
    /// The resumer's suspended pointer.
    pub closed spec fn outer(&self) -> StackPointer {
        self.stack
    }

    /// The handle given to a body that was entered from `outer`.
    pub fn new(outer: StackPointer) -> (r: Self)
        ensures
            r.outer() == outer,
    {
        YieldHandle { stack: outer }
    }

    /// Where a yield switches to.
    pub fn target(&self) -> (r: StackPointer)
        ensures
            r == self.outer(),
    {
        self.stack
    }

    /// Reads the switch that resumed the body after a yield: the handle
    /// keeps the resumer's new pointer, and the result is the address of the
    /// resume argument, or `None` when the generator is being dropped and
    /// the body has to unwind.
    pub fn receive(&mut self, result: SwitchResult) -> (r: Option<usize>)
        requires
            result.stack is Some,
        ensures
            final(self).outer() == result.stack->0,
            r == resume_argument(result.payload),
    {
        match result.stack {
            Some(sp) => {
                self.stack = sp;
            },
            None => {},
        }
        if result.payload == 0 {
            None
        } else {
            Some(result.payload)
        }
    }
}

} // verus!
