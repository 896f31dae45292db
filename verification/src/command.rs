//! Pending mutations and the queue that carries them to a phase barrier.
//!
//! Background tasks never touch the shared state directly: they describe
//! each mutation as a command, collect commands in a [`CommandQueue`], and
//! hand the queue over for the pipeline driver to apply once the barrier
//! has been reached.  Applying a queue replays its commands first-in,
//! first-out.

use vstd::prelude::*;

verus! {

/// One opaque mutation of the shared state.
///
/// The implementor states the mathematical meaning of the command with
/// [`Mutation::effect`], over the state's view, and is bound by the
/// contract of [`Mutation::apply`] to act accordingly.  Commands are
/// consumed when applied: each is applied exactly once.
pub trait Mutation<S: View>: Sized {
    /// The view of the state that results from applying this command to
    /// a state viewed as `s`.
    spec fn effect(self, s: <S as View>::V) -> <S as View>::V;

    /// Applies this command to `state`.
    fn apply(self, state: &mut S)
        ensures
            final(state)@ == self.effect(old(state)@),
    ;
}

/// The state view after replaying `cmds` over `s`, first command first.
pub open spec fn fold_effects<S: View, C: Mutation<S>>(s: <S as View>::V, cmds: Seq<C>) -> <S as View>::V
    decreases cmds.len(),
{
    if cmds.len() == 0 {
        s
    } else {
        fold_effects::<S, C>(cmds[0].effect(s), cmds.subrange(1, cmds.len() as int))
    }
}

/// Replaying `cmds + [c]` is replaying `cmds`, then applying `c`.
pub proof fn lemma_fold_effects_push<S: View, C: Mutation<S>>(s: <S as View>::V, cmds: Seq<C>, c: C)
    ensures
        fold_effects::<S, C>(s, cmds.push(c)) == c.effect(fold_effects::<S, C>(s, cmds)),
    decreases cmds.len(),
{
    let p = cmds.push(c);
    if cmds.len() == 0 {
        assert(p[0] == c);
        assert(p.subrange(1, p.len() as int) =~= Seq::<C>::empty());
        assert(fold_effects::<S, C>(s, p) == fold_effects::<S, C>(
            c.effect(s),
            p.subrange(1, p.len() as int),
        ));
        assert(fold_effects::<S, C>(c.effect(s), Seq::<C>::empty()) == c.effect(s));
        assert(fold_effects::<S, C>(s, cmds) == s);
    } else {
        let tail = cmds.subrange(1, cmds.len() as int);
        assert(p[0] == cmds[0]);
        assert(p.subrange(1, p.len() as int) =~= tail.push(c));
        lemma_fold_effects_push::<S, C>(cmds[0].effect(s), tail, c);
        assert(fold_effects::<S, C>(s, p) == fold_effects::<S, C>(
            cmds[0].effect(s),
            p.subrange(1, p.len() as int),
        ));
        assert(fold_effects::<S, C>(s, cmds) == fold_effects::<S, C>(cmds[0].effect(s), tail));
    }
}

/// Replaying a concatenation is replaying the first part, then the second.
pub proof fn lemma_fold_effects_concat<S: View, C: Mutation<S>>(s: <S as View>::V, a: Seq<C>, b: Seq<C>)
    ensures
        fold_effects::<S, C>(s, a + b) == fold_effects::<S, C>(fold_effects::<S, C>(s, a), b),
    decreases b.len(),
{
    if b.len() == 0 {
        assert(a + b =~= a);
    } else {
        let b0 = b.subrange(0, b.len() - 1);
        let c = b[b.len() - 1];
        assert(b =~= b0.push(c));
        assert(a + b =~= (a + b0).push(c));
        lemma_fold_effects_concat::<S, C>(s, a, b0);
        lemma_fold_effects_push::<S, C>(s, a + b0, c);
        lemma_fold_effects_push::<S, C>(fold_effects::<S, C>(s, a), b0, c);
    }
}

/// An ordered queue of commands awaiting application at a phase barrier.
///
/// Producers push at the back; the barrier replays the queue from the
/// front, so commands land in the order they were enqueued.
pub struct CommandQueue<C> {
    items: Vec<C>,
}

impl<C> View for CommandQueue<C> {
    type V = Seq<C>;

    closed spec fn view(&self) -> Seq<C> {
        self.items@
    }
}

impl<C> CommandQueue<C> {
    /// An empty queue.
    pub fn new() -> (r: CommandQueue<C>)
        ensures
            r@ == Seq::<C>::empty(),
    {
        CommandQueue { items: Vec::new() }
    }

    /// How many commands are pending.
    pub fn len(&self) -> (r: usize)
        ensures
            r == self@.len(),
    {
        self.items.len()
    }

    /// True when no command is pending.
    pub fn is_empty(&self) -> (r: bool)
        ensures
            r == (self@.len() == 0),
    {
        self.items.is_empty()
    }

    /// Enqueues `c` behind every command already pending.
    pub fn push(&mut self, c: C)
        ensures
            final(self)@ == old(self)@.push(c),
    {
        self.items.push(c);
    }

    /// Moves every command of `other` to the back of this queue, keeping
    /// their order; `other` is left empty.
    pub fn append(&mut self, other: &mut CommandQueue<C>)
        ensures
            final(self)@ == old(self)@ + old(other)@,
            final(other)@ == Seq::<C>::empty(),
    {
        self.items.append(&mut other.items);
    }

    /// Applies every pending command to `state`, front to back, leaving
    /// the queue empty.  The state afterwards is exactly the replay of
    /// the queue over the state before: no command is lost, duplicated,
    /// or reordered.
    pub fn apply<S: View>(&mut self, state: &mut S) where C: Mutation<S>
        ensures
            final(self)@ == Seq::<C>::empty(),
            final(state)@ == fold_effects::<S, C>(old(state)@, old(self)@),
    {
        let ghost s0 = (*state)@;
        let ghost all = self.items@;
        let ghost mut done: Seq<C> = Seq::empty();
        while self.items.len() > 0
            invariant
                all == done + self.items@,
                (*state)@ == fold_effects::<S, C>(s0, done),
            decreases self.items.len(),
        {
            let c = self.items.remove(0);
            c.apply(state);
            proof {
                lemma_fold_effects_push::<S, C>(s0, done, c);
                done = done.push(c);
                assert(all =~= done + self.items@);
            }
        }
        proof {
            assert(all =~= done);
        }
    }
}

} // verus!
