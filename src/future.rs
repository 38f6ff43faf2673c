use vstd::prelude::*;

use crate::fiber::{Stack, StackPointer, STACK_SIZE};
use crate::generator::{
    phase_after, GeneratorState, Phase, ResumeStep, StackfulGenerator, YieldPayload,
};

verus! {

/// One coroutine context on a thread's chain: the record `ctx` that the
/// current drive installed, and how many unwinds have passed through a
/// yield while this context was the innermost one and not yet reached the
/// exit of their body.
pub struct Frame<C> {
    pub ctx: C,
    pub unwinding: usize,
}

/// The thread's chain of active coroutine contexts, innermost last. Each
/// entry's parent is the entry before it.
pub struct ContextChain<C> {
    frames: Vec<Frame<C>>,
}

impl<C> View for ContextChain<C> {
    type V = Seq<Frame<C>>;

    closed spec fn view(&self) -> Seq<Frame<C>> {
        self.frames@
    }
}

/// The chain after a context record has been made the innermost one.
pub open spec fn installed<C>(chain: Seq<Frame<C>>, ctx: C) -> Seq<Frame<C>> {
    chain.push(Frame { ctx, unwinding: 0 })
}

/// The innermost frame's count of pending unwinds set to `n`.
pub open spec fn with_unwinding<C>(chain: Seq<Frame<C>>, n: int) -> Seq<Frame<C>> {
    chain.update(chain.len() - 1, Frame { ctx: chain.last().ctx, unwinding: n as usize })
}

/// The chain after an unwind passed through a yield: the innermost context,
/// if any, counts one more pending unwind.
pub open spec fn flagged<C>(chain: Seq<Frame<C>>) -> Seq<Frame<C>> {
    if chain.len() == 0 {
        chain
    } else {
        with_unwinding(chain, chain.last().unwinding + 1)
    }
}

/// The chain after a body has exited. Its context is removed, unless the
/// exit ends an unwind that passed through a yield, where the context was
/// already removed: then that pending unwind is counted off instead.
pub open spec fn exited<C>(chain: Seq<Frame<C>>) -> Seq<Frame<C>> {
    if chain.len() == 0 {
        chain
    } else if chain.last().unwinding > 0 {
        with_unwinding(chain, chain.last().unwinding - 1)
    } else {
        chain.drop_last()
    }
}

impl<C> ContextChain<C> {
    /// An empty chain: no coroutine body runs on this thread.
    pub fn new() -> (r: Self)
        ensures
            r@ == Seq::<Frame<C>>::empty(),
    {
        ContextChain { frames: Vec::new() }
    }

    /// The innermost context, or `None` outside every coroutine body, in
    /// which case a wait blocks the thread instead.
    pub fn current(&self) -> (r: Option<&C>)
        ensures
            r is None <==> self@.len() == 0,
            r matches Some(c) ==> *c == self@.last().ctx,
    {
        let n = self.frames.len();
        if n == 0 {
            None
        } else {
            Some(&self.frames[n - 1].ctx)
        }
    }

    /// Makes `ctx` the innermost context, its parent the former innermost
    /// one: on entry to a body, and in a wait once the body is resumed.
    pub fn install(&mut self, ctx: C)
        ensures
            final(self)@ == installed(old(self)@, ctx),
    {
        self.frames.push(Frame { ctx, unwinding: 0 });
    }

    /// Removes the innermost context before a wait yields, restoring its
    /// parent.
    pub fn suspend(&mut self) -> (r: Frame<C>)
        requires
            old(self)@.len() > 0,
        ensures
            r == old(self)@.last(),
            final(self)@ == old(self)@.drop_last(),
    {
        self.frames.pop().unwrap()
    }

    /// Whether one more unwind can be counted on the innermost context.
    pub fn can_mark(&self) -> (r: bool)
        ensures
            r == (self@.len() == 0 || self@.last().unwinding < usize::MAX),
    {
        let n = self.frames.len();
        n == 0 || self.frames[n - 1].unwinding < usize::MAX
    }

    /// Records that an unwind passes through a yield, so that the exit of
    /// the body it unwinds does not remove a context a second time.
    pub fn mark_unwinding(&mut self)
        requires
            old(self)@.len() == 0 || old(self)@.last().unwinding < usize::MAX,
        ensures
            final(self)@ == flagged(old(self)@),
    {
        match self.frames.pop() {
            Some(f) => {
                self.frames.push(Frame { ctx: f.ctx, unwinding: f.unwinding + 1 });
                assert(final(self)@ =~= flagged(old(self)@));
            },
            None => {},
        }
    }

    /// Runs when a body exits, normally or by unwinding.
    pub fn leave_body(&mut self)
        ensures
            final(self)@ == exited(old(self)@),
    {
        match self.frames.pop() {
            Some(f) => {
                if f.unwinding > 0 {
                    self.frames.push(Frame { ctx: f.ctx, unwinding: f.unwinding - 1 });
                    assert(final(self)@ =~= exited(old(self)@));
                }
            },
            None => {},
        }
    }
}

/// A body that installs its context and exits without yielding leaves the
/// chain as it found it, however deeply bodies are nested.
pub proof fn lemma_body_restores_chain<C>(chain: Seq<Frame<C>>, ctx: C)
    ensures
        exited(installed(chain, ctx)) == chain,
{
    assert(installed(chain, ctx).drop_last() =~= chain);
}

/// A wait that yields and is resumed by the next drive replaces only the
/// innermost context: the record of the next drive takes its place, and
/// the parents stay.
pub proof fn lemma_wait_replaces_innermost<C>(chain: Seq<Frame<C>>, next: C)
    requires
        chain.len() > 0,
    ensures
        installed(chain.drop_last(), next).drop_last() == chain.drop_last(),
        installed(chain.drop_last(), next).last().ctx == next,
        installed(chain.drop_last(), next).len() == chain.len(),
{
    assert(installed(chain.drop_last(), next).drop_last() =~= chain.drop_last());
}

/// Dropping an awaitable whose body is suspended in a wait unwinds the body
/// through its yield and then through its exit; the chain of whoever drops
/// it is left exactly as it was.
pub proof fn lemma_abort_keeps_chain<C>(chain: Seq<Frame<C>>)
    requires
        chain.len() == 0 || chain.last().unwinding < usize::MAX,
    ensures
        exited(flagged(chain)) == chain,
{
    if chain.len() > 0 {
        assert(exited(flagged(chain)) =~= chain);
    }
}

/// A drive from chain `chain` that enters a body, which installs `ctx` and
/// yields in a wait, hands the chain back as it was; dropping the awaitable
/// afterwards leaves it so too, empty if it was empty.
pub proof fn lemma_drop_after_one_poll<C>(chain: Seq<Frame<C>>, ctx: C)
    requires
        chain.len() == 0 || chain.last().unwinding < usize::MAX,
    ensures
        installed(chain, ctx).drop_last() == chain,
        exited(flagged(installed(chain, ctx).drop_last())) == chain,
{
    assert(installed(chain, ctx).drop_last() =~= chain);
    lemma_abort_keeps_chain(chain);
}

/// Two unwinds through yields, the second begun while the first is under
/// way and the same context innermost (a suspended awaitable dropped by the
/// cleanup of another): each is counted off by its own body's exit, and the
/// chain ends as it began.
pub proof fn lemma_nested_aborts_keep_chain<C>(chain: Seq<Frame<C>>)
    requires
        chain.len() == 0 || chain.last().unwinding + 1 < usize::MAX,
    ensures
        exited(exited(flagged(flagged(chain)))) == chain,
{
    if chain.len() > 0 {
        assert(exited(flagged(chain)) =~= chain);
        assert(exited(flagged(flagged(chain))) =~= flagged(chain));
    }
}

/// What a drive of the awaitable reports for the body's message: not
/// ready on a yield (whose value, the unit in effect, is dropped), ready with the value on completion, and a panic of the
/// body is raised again.
pub open spec fn poll_output<Y, T, P>(payload: YieldPayload<Y, T, P>) -> Result<Option<T>, P> {
    match payload {
        YieldPayload::Yielded(_) => Ok(None),
        YieldPayload::Complete(v) => Ok(Some(v)),
        YieldPayload::Panic(p) => Err(p),
    }
}

/// A synchronous function turned into an awaitable: a generator that yields
/// `()` whenever the function waits on something that is not ready.
pub struct StackfulFuture<F> {
    generator: StackfulGenerator<F>,
}

impl<F> StackfulFuture<F> {
    pub closed spec fn phase(&self) -> Phase {
        self.generator.phase()
    }

    pub closed spec fn body(&self) -> Option<F> {
        self.generator.body()
    }

    pub closed spec fn stack_base(&self) -> nat {
        self.generator.stack_base()
    }

    /// The awaitable that runs `f` on `stack`; nothing runs before the first
    /// drive.
    pub fn new(stack: Stack, f: F) -> (r: Self)
        ensures
            r.phase() == Phase::Fresh,
            r.body() == Some(f),
            r.stack_base() == stack@,
    {
        StackfulFuture { generator: StackfulGenerator::new(stack, f) }
    }

    /// Whether the body has completed or panicked: driving again is not
    /// allowed.
    pub fn is_done(&self) -> (r: bool)
        ensures
            r == (self.phase() == Phase::Done),
    {
        self.generator.is_done()
    }

    /// The switch a drive makes, as for a resumption of the generator.
    pub fn begin_poll(&mut self) -> (r: ResumeStep<F>)
        requires
            old(self).phase() != Phase::Done,
        ensures
            final(self).stack_base() == old(self).stack_base(),
            final(self).body() is None,
            old(self).phase() == Phase::Fresh ==> {
                &&& r is Enter
                &&& r->top@ == old(self).stack_base() + STACK_SIZE
                &&& Some(r->func) == old(self).body()
                &&& final(self).phase() == Phase::Done
            },
            old(self).phase() is Suspended ==> {
                &&& r is Switch
                &&& old(self).phase() == Phase::Suspended(r->target)
                &&& final(self).phase() == old(self).phase()
            },
    {
        self.generator.begin_resume()
    }

    /// The outcome of a drive, from the body's message after the switch:
    /// `Ok(None)` for not ready, `Ok(Some(v))` for ready with `v`, `Err(p)`
    /// for the body's panic `p`.
    pub fn finish_poll<Y, T, P>(&mut self, stack: Option<StackPointer>, payload: YieldPayload<Y, T, P>) -> (r: Result<Option<T>, P>)
        requires
            old(self).body() is None,
        ensures
            r == poll_output(payload),
            final(self).phase() == phase_after(stack, payload),
            final(self).body() is None,
            final(self).stack_base() == old(self).stack_base(),
    {
        match self.generator.finish_resume(stack, payload) {
            Ok(GeneratorState::Yielded(_)) => Ok(None),
            Ok(GeneratorState::Complete(v)) => Ok(Some(v)),
            Err(p) => Err(p),
        }
    }

    /// Takes the awaitable apart when it is dropped, as for the generator.
    pub fn retire(self) -> (r: (Option<StackPointer>, Stack))
        ensures
            r.0 is Some <==> self.phase() is Suspended,
            self.phase() is Suspended ==> self.phase() == Phase::Suspended(r.0->0),
            r.1@ == self.stack_base(),
    {
        self.generator.retire()
    }
}

} // verus!
