use crate::model::BlockModel;
use core::marker::PhantomData;
use vstd::pervasive::{arbitrary, unreached};
use vstd::prelude::*;

verus! {

/// What the payload slot of a control block holds.
pub enum Slot<T> {
    /// Reserved for a value that is still being built; holds no `T`, so
    /// nothing is ever read from it or destroyed in it.
    Pending,
    /// The constructed payload.
    Live(T),
    /// The payload was destroyed; the slot is never read again.
    Destroyed,
}

/// The shared record behind every handle to one value: the two counters and
/// the payload slot.
///
/// The ghost fields keep a ledger of the handles issued: each live handle
/// holds a ticket that sits in the set of its kind, and each count equals the
/// size of its set.
pub struct ControlBlock<T> {
    strong_count: usize,
    weak_count: usize,
    payload: Slot<T>,
    /// Identity shared by the block and its handles. Constructors promise
    /// nothing about its value, so a proof can only match a handle with the
    /// block that issued it.
    id: Ghost<int>,
    /// Tickets of the live strong handles.
    strong_tickets: Ghost<Set<nat>>,
    /// Tickets of the live weak handles.
    weak_tickets: Ghost<Set<nat>>,
    /// Above every ticket issued so far.
    next_ticket: Ghost<nat>,
}

/// A strong handle: one unit of the strong count.
///
/// It has no destructor of its own: it is given back with `drop`, which takes
/// the block. One discarded otherwise keeps its unit (a leak, never a
/// dangling access).
pub struct Rc<T> {
    block: Ghost<int>,
    ticket: Ghost<nat>,
    marker: PhantomData<T>,
}

/// A weak handle: one unit of the weak count. It grants no access to the
/// payload, only the attempt to upgrade.
pub struct Weak<T> {
    block: Ghost<int>,
    ticket: Ghost<nat>,
    marker: PhantomData<T>,
}

impl<T> Rc<T> {
    /// The block this handle was issued by.
    pub closed spec fn block_id(&self) -> int {
        self.block@
    }

    /// The ticket under which the block records this handle.
    pub closed spec fn ticket(&self) -> nat {
        self.ticket@
    }
}

impl<T> Weak<T> {
    /// The block this handle was issued by.
    pub closed spec fn block_id(&self) -> int {
        self.block@
    }

    /// The ticket under which the block records this handle.
    pub closed spec fn ticket(&self) -> nat {
        self.ticket@
    }
}

impl<T> ControlBlock<T> {
    /// The identity that the handles of this block carry.
    pub closed spec fn id(&self) -> int {
        self.id@
    }

    pub closed spec fn slot(&self) -> Slot<T> {
        self.payload
    }

    /// The payload, while the slot holds one.
    pub open spec fn value(&self) -> T {
        self.slot()->Live_0
    }

    pub closed spec fn strong_tickets(&self) -> Set<nat> {
        self.strong_tickets@
    }

    pub closed spec fn weak_tickets(&self) -> Set<nat> {
        self.weak_tickets@
    }

    /// The counters, and the destruction and release that they imply.
    pub closed spec fn model(&self) -> BlockModel {
        BlockModel {
            strong: self.strong_count as nat,
            weak: self.weak_count as nat,
            destroyed: if self.payload is Destroyed { 1 } else { 0 },
            freed: if self.strong_count == 0 && self.weak_count == 0 { 1 } else { 0 },
        }
    }

    /// `r` is a live strong handle of this block.
    pub open spec fn holds_strong(&self, r: Rc<T>) -> bool {
        r.block_id() == self.id() && self.strong_tickets().contains(r.ticket())
    }

    /// `w` is a live weak handle of this block.
    pub open spec fn holds_weak(&self, w: Weak<T>) -> bool {
        w.block_id() == self.id() && self.weak_tickets().contains(w.ticket())
    }

    /// No handle of this block holds ticket `t`.
    pub open spec fn unissued(&self, t: nat) -> bool {
        !self.strong_tickets().contains(t) && !self.weak_tickets().contains(t)
    }

    /// The block's invariant: each count is the number of handles of its kind,
    /// and the payload is constructed exactly while the strong count is nonzero.
    pub closed spec fn wf(&self) -> bool {
        &&& self.strong_tickets@.finite()
        &&& self.weak_tickets@.finite()
        &&& self.strong_count as nat == self.strong_tickets@.len()
        &&& self.weak_count as nat == self.weak_tickets@.len()
        &&& forall|t: nat| self.strong_tickets@.contains(t) ==> t < self.next_ticket@
        &&& forall|t: nat| self.weak_tickets@.contains(t) ==> t < self.next_ticket@
        &&& !(self.payload is Pending)
        &&& (self.payload is Live <==> self.strong_count > 0)
    }

    /// A block with one strong unit that holds `pointee`.
    fn new(pointee: T) -> (out: (ControlBlock<T>, Rc<T>))
        ensures
            out.0.wf(),
            out.0.model() == BlockModel::fresh(),
            out.0.slot() == Slot::Live(pointee),
            out.0.holds_strong(out.1),
            out.0.strong_tickets() == set![out.1.ticket()],
            out.0.weak_tickets() == Set::<nat>::empty(),
    {
        let ghost id: int = arbitrary();
        let block = ControlBlock {
            strong_count: 1,
            weak_count: 0,
            payload: Slot::Live(pointee),
            id: Ghost(id),
            strong_tickets: Ghost(Set::empty().insert(0nat)),
            weak_tickets: Ghost(Set::empty()),
            next_ticket: Ghost(1),
        };
        let r = Rc { block: Ghost(id), ticket: Ghost(0), marker: PhantomData };
        (block, r)
    }
}

impl<T> ControlBlock<T> {
    /// Takes one more strong unit and records it under a fresh ticket.
    fn increment_strong(&mut self) -> (t: Ghost<nat>)
        requires
            old(self).wf(),
            0 < old(self).model().strong < usize::MAX,
        ensures
            final(self).wf(),
            final(self).model() == old(self).model().inc_strong(),
            final(self).id() == old(self).id(),
            final(self).slot() == old(self).slot(),
            old(self).unissued(t@),
            final(self).strong_tickets() == old(self).strong_tickets().insert(t@),
            final(self).weak_tickets() == old(self).weak_tickets(),
    {
        let t = Ghost(self.next_ticket@);
        assert(!self.strong_tickets@.contains(t@));
        assert(!self.weak_tickets@.contains(t@));
        self.strong_count = self.strong_count + 1;
        self.strong_tickets = Ghost(self.strong_tickets@.insert(t@));
        self.next_ticket = Ghost(self.next_ticket@ + 1);
        t
    }

    /// Takes one more weak unit and records it under a fresh ticket.
    fn increment_weak(&mut self) -> (t: Ghost<nat>)
        requires
            old(self).wf(),
            !old(self).model().is_freed(),
            old(self).model().weak < usize::MAX,
        ensures
            final(self).wf(),
            final(self).model() == old(self).model().inc_weak(),
            final(self).id() == old(self).id(),
            final(self).slot() == old(self).slot(),
            old(self).unissued(t@),
            final(self).strong_tickets() == old(self).strong_tickets(),
            final(self).weak_tickets() == old(self).weak_tickets().insert(t@),
    {
        let t = Ghost(self.next_ticket@);
        assert(!self.strong_tickets@.contains(t@));
        assert(!self.weak_tickets@.contains(t@));
        self.weak_count = self.weak_count + 1;
        self.weak_tickets = Ghost(self.weak_tickets@.insert(t@));
        self.next_ticket = Ghost(self.next_ticket@ + 1);
        t
    }

    /// Gives back the strong unit recorded under `t`. At zero the payload is
    /// destroyed in place, once; the block is then released if no weak unit
    /// is left either.
    fn decrement_strong(&mut self, t: Ghost<nat>)
        requires
            old(self).wf(),
            old(self).strong_tickets().contains(t@),
        ensures
            final(self).wf(),
            final(self).model() == old(self).model().dec_strong(),
            final(self).id() == old(self).id(),
            final(self).slot() == if final(self).model().strong == 0 {
                Slot::Destroyed
            } else {
                old(self).slot()
            },
            final(self).strong_tickets() == old(self).strong_tickets().remove(t@),
            final(self).weak_tickets() == old(self).weak_tickets(),
    {
        self.strong_count = self.strong_count - 1;
        self.strong_tickets = Ghost(self.strong_tickets@.remove(t@));
        if self.strong_count == 0 {
            // the old payload is dropped here, and the slot never holds a value again
            self.payload = Slot::Destroyed;
        }
    }

    /// Gives back the weak unit recorded under `t`; the block is released when
    /// both counts are zero.
    fn decrement_weak(&mut self, t: Ghost<nat>)
        requires
            old(self).wf(),
            old(self).weak_tickets().contains(t@),
        ensures
            final(self).wf(),
            final(self).model() == old(self).model().dec_weak(),
            final(self).id() == old(self).id(),
            final(self).slot() == old(self).slot(),
            final(self).strong_tickets() == old(self).strong_tickets(),
            final(self).weak_tickets() == old(self).weak_tickets().remove(t@),
    {
        self.weak_count = self.weak_count - 1;
        self.weak_tickets = Ghost(self.weak_tickets@.remove(t@));
    }
}

impl<T> Rc<T> {
    /// Allocates a control block that holds `pointee`, with one strong unit
    /// and no weak one, and returns it with its single strong handle.
    pub fn new(pointee: T) -> (out: (ControlBlock<T>, Rc<T>))
        ensures
            out.0.wf(),
            out.0.model() == BlockModel::fresh(),
            out.0.slot() == Slot::Live(pointee),
            out.0.holds_strong(out.1),
            out.0.strong_tickets() == set![out.1.ticket()],
            out.0.weak_tickets() == Set::<nat>::empty(),
    {
        ControlBlock::new(pointee)
    }

    /// Builds a value that holds a weak handle to itself.
    ///
    /// The block starts with an empty slot, no strong unit and the one weak
    /// unit handed to `builder`; as long as `builder` runs the block is not
    /// live, so that handle cannot be upgraded. The value `builder` returns is
    /// then put in the slot without reading what was there, and the block gets
    /// its first strong unit.
    pub fn new_cyclic(builder: impl Fn(Weak<T>) -> T) -> (out: (ControlBlock<T>, Rc<T>))
        requires
            forall|w: Weak<T>| builder.requires((w,)),
        ensures
            out.0.wf(),
            out.0.model() == (BlockModel { strong: 1, weak: 1, destroyed: 0, freed: 0 }),
            out.0.holds_strong(out.1),
            out.0.strong_tickets() == set![out.1.ticket()],
            exists|w: Weak<T>|
                {
                    &&& #[trigger] builder.ensures((w,), out.0.value())
                    &&& out.0.slot() == Slot::Live(out.0.value())
                    &&& out.0.holds_weak(w)
                    &&& out.0.weak_tickets() == set![w.ticket()]
                    &&& w.block_id() == out.1.block_id()
                    &&& w.ticket() != out.1.ticket()
                },
    {
        let ghost id: int = arbitrary();
        let mut block = ControlBlock {
            strong_count: 0,
            weak_count: 1,
            payload: Slot::Pending,
            id: Ghost(id),
            strong_tickets: Ghost(Set::empty()),
            weak_tickets: Ghost(Set::empty().insert(0nat)),
            next_ticket: Ghost(2),
        };
        let w = Weak { block: Ghost(id), ticket: Ghost(0), marker: PhantomData };
        let ghost w_ghost = w;
        let value = builder(w);
        // the slot holds no value yet: nothing is read or destroyed here
        block.payload = Slot::Live(value);
        block.strong_count = 1;
        block.strong_tickets = Ghost(Set::empty().insert(1nat));
        let r = Rc { block: Ghost(id), ticket: Ghost(1), marker: PhantomData };
        // the handle given to the builder witnesses the result
        assert(builder.ensures((w_ghost,), block.value()));
        assert(block.strong_tickets@ =~= set![r.ticket()]);
        assert(block.weak_tickets@ =~= set![w_ghost.ticket()]);
        (block, r)
    }

    /// Reads the payload. A strong handle keeps it constructed, so this
    /// never reads a destroyed or unbuilt slot.
    pub fn deref<'a>(&self, block: &'a ControlBlock<T>) -> (out: &'a T)
        requires
            block.wf(),
            block.holds_strong(*self),
        ensures
            block.slot() == Slot::Live(*out),
            *out == block.value(),
    {
        match &block.payload {
            Slot::Live(v) => v,
            _ => unreached(),
        }
    }

    /// A second strong handle to the same block; the strong count goes up by
    /// one. The count must not overflow.
    pub fn clone(&self, block: &mut ControlBlock<T>) -> (out: Rc<T>)
        requires
            old(block).wf(),
            old(block).holds_strong(*self),
            old(block).model().strong < usize::MAX,
        ensures
            final(block).wf(),
            final(block).model() == old(block).model().inc_strong(),
            final(block).id() == old(block).id(),
            final(block).slot() == old(block).slot(),
            out.block_id() == self.block_id(),
            old(block).unissued(out.ticket()),
            final(block).strong_tickets() == old(block).strong_tickets().insert(out.ticket()),
            final(block).weak_tickets() == old(block).weak_tickets(),
    {
        let t = block.increment_strong();
        Rc { block: self.block, ticket: t, marker: PhantomData }
    }

    /// Gives this handle back: the strong count goes down by one. The last
    /// strong handle destroys the payload, and releases the block if no weak
    /// handle is left.
    pub fn drop(self, block: &mut ControlBlock<T>)
        requires
            old(block).wf(),
            old(block).holds_strong(self),
        ensures
            final(block).wf(),
            final(block).model() == old(block).model().dec_strong(),
            final(block).id() == old(block).id(),
            final(block).slot() == if final(block).model().strong == 0 {
                Slot::Destroyed
            } else {
                old(block).slot()
            },
            final(block).strong_tickets() == old(block).strong_tickets().remove(self.ticket()),
            final(block).weak_tickets() == old(block).weak_tickets(),
    {
        block.decrement_strong(self.ticket);
    }

    /// Turns this strong handle into a weak one of the same block. The weak
    /// unit is taken before the strong one is given back, so the block is
    /// never without a unit; when this was the last strong handle the payload
    /// is destroyed. The weak count must not overflow.
    pub fn downgrade(self, block: &mut ControlBlock<T>) -> (out: Weak<T>)
        requires
            old(block).wf(),
            old(block).holds_strong(self),
            old(block).model().weak < usize::MAX,
        ensures
            final(block).wf(),
            final(block).model() == old(block).model().downgrade(),
            final(block).id() == old(block).id(),
            final(block).slot() == if final(block).model().strong == 0 {
                Slot::Destroyed
            } else {
                old(block).slot()
            },
            out.block_id() == self.block_id(),
            old(block).unissued(out.ticket()),
            final(block).strong_tickets() == old(block).strong_tickets().remove(self.ticket()),
            final(block).weak_tickets() == old(block).weak_tickets().insert(out.ticket()),
    {
        let t = block.increment_weak();
        block.decrement_strong(self.ticket);
        Weak { block: self.block, ticket: t, marker: PhantomData }
    }
}

impl<T> Weak<T> {
    /// A strong handle to the same block while the payload lives (`Some`,
    /// strong count up by one); `None` once it is destroyed. Either way this
    /// weak handle is given back. The strong count must not overflow.
    pub fn upgrade(self, block: &mut ControlBlock<T>) -> (out: Option<Rc<T>>)
        requires
            old(block).wf(),
            old(block).holds_weak(self),
            old(block).model().strong < usize::MAX,
        ensures
            final(block).wf(),
            final(block).model() == old(block).model().upgrade(),
            final(block).id() == old(block).id(),
            final(block).slot() == old(block).slot(),
            out is Some <==> old(block).model().is_live(),
            final(block).weak_tickets() == old(block).weak_tickets().remove(self.ticket()),
            match out {
                Some(r) => {
                    &&& r.block_id() == self.block_id()
                    &&& old(block).unissued(r.ticket())
                    &&& final(block).strong_tickets() == old(block).strong_tickets().insert(
                        r.ticket(),
                    )
                },
                None => final(block).strong_tickets() == old(block).strong_tickets(),
            },
    {
        if block.strong_count != 0 {
            let t = block.increment_strong();
            block.decrement_weak(self.ticket);
            Some(Rc { block: self.block, ticket: t, marker: PhantomData })
        } else {
            block.decrement_weak(self.ticket);
            None
        }
    }

    /// A second weak handle to the same block; the weak count goes up by one.
    /// The count must not overflow.
    pub fn clone(&self, block: &mut ControlBlock<T>) -> (out: Weak<T>)
        requires
            old(block).wf(),
            old(block).holds_weak(*self),
            old(block).model().weak < usize::MAX,
        ensures
            final(block).wf(),
            final(block).model() == old(block).model().inc_weak(),
            final(block).id() == old(block).id(),
            final(block).slot() == old(block).slot(),
            out.block_id() == self.block_id(),
            old(block).unissued(out.ticket()),
            final(block).strong_tickets() == old(block).strong_tickets(),
            final(block).weak_tickets() == old(block).weak_tickets().insert(out.ticket()),
    {
        let t = block.increment_weak();
        Weak { block: self.block, ticket: t, marker: PhantomData }
    }

    /// Gives this handle back: the weak count goes down by one, and the block
    /// is released if it was the last handle of either kind.
    pub fn drop(self, block: &mut ControlBlock<T>)
        requires
            old(block).wf(),
            old(block).holds_weak(self),
        ensures
            final(block).wf(),
            final(block).model() == old(block).model().dec_weak(),
            final(block).id() == old(block).id(),
            final(block).slot() == old(block).slot(),
            final(block).strong_tickets() == old(block).strong_tickets(),
            final(block).weak_tickets() == old(block).weak_tickets().remove(self.ticket()),
    {
        block.decrement_weak(self.ticket);
    }
}

impl<T> ControlBlock<T> {
    /// The number of live strong handles.
    pub fn strong_count(&self) -> (out: usize)
        ensures
            out as nat == self.model().strong,
    {
        self.strong_count
    }

    /// The number of live weak handles.
    pub fn weak_count(&self) -> (out: usize)
        ensures
            out as nat == self.model().weak,
    {
        self.weak_count
    }

    /// Whether the payload is constructed.
    pub fn is_live(&self) -> (out: bool)
        requires
            self.wf(),
        ensures
            out == self.model().is_live(),
            out == self.slot() is Live,
    {
        self.strong_count > 0
    }

    /// Whether the block is released: no handle of either kind is left.
    pub fn is_released(&self) -> (out: bool)
        ensures
            out == self.model().is_freed(),
            out == (self.model().freed == 1),
    {
        self.strong_count == 0 && self.weak_count == 0
    }
}

/// Each count is the number of live handles of its kind: every handle stands
/// for exactly one unit of its count.
pub proof fn lemma_counts_are_live_handles<T>(block: &ControlBlock<T>)
    requires
        block.wf(),
    ensures
        block.strong_tickets().finite(),
        block.weak_tickets().finite(),
        block.model().strong == block.strong_tickets().len(),
        block.model().weak == block.weak_tickets().len(),
{
}

/// No use after free, strong side: while a strong handle of a block is
/// live, its payload is constructed and neither destroyed nor released.
pub proof fn lemma_strong_handle_keeps_payload<T>(block: &ControlBlock<T>, r: Rc<T>)
    requires
        block.wf(),
        block.holds_strong(r),
    ensures
        block.slot() is Live,
        block.model().is_live(),
        block.model().destroyed == 0,
        block.model().freed == 0,
{
    assert(block.strong_tickets@.len() > 0);
}

/// No use after free, weak side: while a weak handle of a block is live the
/// block is not released, and its payload is constructed exactly while the
/// strong count is nonzero.
pub proof fn lemma_weak_handle_keeps_block<T>(block: &ControlBlock<T>, w: Weak<T>)
    requires
        block.wf(),
        block.holds_weak(w),
    ensures
        !block.model().is_freed(),
        block.model().freed == 0,
        block.slot() is Live <==> block.model().is_live(),
        block.model().destroyed == if block.model().is_live() {
            0nat
        } else {
            1nat
        },
{
    assert(block.weak_tickets@.len() > 0);
}

} // verus!
