use vstd::prelude::*;

verus! {

/// The abstract state of a control block: its two counters and how many
/// times the payload was destroyed and the block released.
pub struct BlockModel {
    pub strong: nat,
    pub weak: nat,
    pub destroyed: nat,
    pub freed: nat,
}

impl BlockModel {
    /// A block fresh from `Rc::new`.
    pub open spec fn fresh() -> BlockModel {
        BlockModel { strong: 1, weak: 0, destroyed: 0, freed: 0 }
    }

    /// The payload is constructed and readable.
    pub open spec fn is_live(self) -> bool {
        self.strong > 0
    }

    /// The payload is gone, the block is still held by weak handles.
    pub open spec fn is_dead(self) -> bool {
        self.strong == 0 && self.weak > 0
    }

    /// Neither kind of handle is left: the block is released.
    pub open spec fn is_freed(self) -> bool {
        self.strong == 0 && self.weak == 0
    }

    pub open spec fn inc_strong(self) -> BlockModel {
        BlockModel { strong: self.strong + 1, ..self }
    }

    /// One strong unit released; at zero the payload is destroyed, and the
    /// block is released as well when no weak unit is left.
    pub open spec fn dec_strong(self) -> BlockModel {
        let strong = (self.strong - 1) as nat;
        BlockModel {
            strong,
            destroyed: if strong == 0 { self.destroyed + 1 } else { self.destroyed },
            freed: if strong == 0 && self.weak == 0 { self.freed + 1 } else { self.freed },
            ..self
        }
    }

    pub open spec fn inc_weak(self) -> BlockModel {
        BlockModel { weak: self.weak + 1, ..self }
    }

    /// One weak unit released; the block is released when both counts are zero.
    pub open spec fn dec_weak(self) -> BlockModel {
        let weak = (self.weak - 1) as nat;
        BlockModel {
            weak,
            freed: if self.strong == 0 && weak == 0 { self.freed + 1 } else { self.freed },
            ..self
        }
    }

    /// A strong unit becomes a weak one; the weak unit is taken first.
    pub open spec fn downgrade(self) -> BlockModel {
        self.inc_weak().dec_strong()
    }

    /// A weak unit becomes a strong one while the payload lives, and is only
    /// released otherwise.
    pub open spec fn upgrade(self) -> BlockModel {
        if self.strong > 0 {
            self.inc_strong().dec_weak()
        } else {
            self.dec_weak()
        }
    }

    /// `n` strong clones in a row.
    pub open spec fn clone_strong_n(self, n: nat) -> BlockModel
        decreases n,
    {
        if n == 0 {
            self
        } else {
            self.inc_strong().clone_strong_n((n - 1) as nat)
        }
    }

    /// `k` strong releases in a row.
    pub open spec fn release_strong_n(self, k: nat) -> BlockModel
        decreases k,
    {
        if k == 0 {
            self
        } else {
            self.dec_strong().release_strong_n((k - 1) as nat)
        }
    }

    /// `n` weak clones in a row.
    pub open spec fn clone_weak_n(self, n: nat) -> BlockModel
        decreases n,
    {
        if n == 0 {
            self
        } else {
            self.inc_weak().clone_weak_n((n - 1) as nat)
        }
    }

    /// `k` weak releases in a row.
    pub open spec fn release_weak_n(self, k: nat) -> BlockModel
        decreases k,
    {
        if k == 0 {
            self
        } else {
            self.dec_weak().release_weak_n((k - 1) as nat)
        }
    }
}

/// `n` strong clones raise the strong count by `n` and change nothing else.
proof fn lemma_clone_strong_n(m: BlockModel, n: nat)
    ensures
        m.clone_strong_n(n) == (BlockModel { strong: m.strong + n, ..m }),
    decreases n,
{
    if n > 0 {
        lemma_clone_strong_n(m.inc_strong(), (n - 1) as nat);
    }
}

/// `k` strong releases of a live block: the payload is destroyed by the one
/// that brings the count to zero, and by no other.
proof fn lemma_release_strong_n(m: BlockModel, k: nat)
    requires
        k <= m.strong,
    ensures
        m.release_strong_n(k).strong == m.strong - k,
        m.release_strong_n(k).weak == m.weak,
        m.release_strong_n(k).destroyed == if k > 0 && k == m.strong {
            m.destroyed + 1
        } else {
            m.destroyed
        },
        m.release_strong_n(k).freed == if k > 0 && k == m.strong && m.weak == 0 {
            m.freed + 1
        } else {
            m.freed
        },
    decreases k,
{
    if k > 0 {
        lemma_release_strong_n(m.dec_strong(), (k - 1) as nat);
    }
}

/// `n` weak clones raise the weak count by `n` and change nothing else.
proof fn lemma_clone_weak_n(m: BlockModel, n: nat)
    ensures
        m.clone_weak_n(n) == (BlockModel { weak: m.weak + n, ..m }),
    decreases n,
{
    if n > 0 {
        lemma_clone_weak_n(m.inc_weak(), (n - 1) as nat);
    }
}

/// `k` weak releases of a block with no strong unit: it is released by the
/// one that brings the weak count to zero, and by no other.
proof fn lemma_release_weak_n(m: BlockModel, k: nat)
    requires
        m.strong == 0,
        k <= m.weak,
    ensures
        m.release_weak_n(k) == (BlockModel {
            weak: (m.weak - k) as nat,
            freed: if k > 0 && k == m.weak { m.freed + 1 } else { m.freed },
            ..m
        }),
    decreases k,
{
    if k > 0 {
        lemma_release_weak_n(m.dec_weak(), (k - 1) as nat);
    }
}

/// Count symmetry: take a live block with `s` strong handles, clone `n` more,
/// then give back `k` of them, in any order (a release does not depend on
/// which handle it is). The payload is destroyed exactly when all `s + n`
/// are back, and then exactly once; the block is released with it only if
/// no weak handle is left.
pub proof fn lemma_count_symmetry(m: BlockModel, n: nat, k: nat)
    requires
        m.is_live(),
        m.destroyed == 0,
        m.freed == 0,
        k <= m.strong + n,
    ensures
        m.clone_strong_n(n).release_strong_n(k).strong == m.strong + n - k,
        m.clone_strong_n(n).release_strong_n(k).weak == m.weak,
        m.clone_strong_n(n).release_strong_n(k).destroyed == if k == m.strong + n {
            1nat
        } else {
            0nat
        },
        m.clone_strong_n(n).release_strong_n(k).freed == if k == m.strong + n && m.weak == 0 {
            1nat
        } else {
            0nat
        },
{
    lemma_clone_strong_n(m, n);
    lemma_release_strong_n(m.clone_strong_n(n), k);
}

/// A weak handle outlives the payload safely: on a block whose payload is
/// destroyed and that weak handles still hold, `n` weak clones followed by `k`
/// weak releases leave it unreleased (and not live, so no upgrade succeeds)
/// until the last weak handle is given back, which releases it once.
pub proof fn lemma_weak_outlives_payload(m: BlockModel, n: nat, k: nat)
    requires
        m.is_dead(),
        m.freed == 0,
        k <= m.weak + n,
    ensures
        !m.clone_weak_n(n).release_weak_n(k).is_live(),
        m.clone_weak_n(n).release_weak_n(k).weak == m.weak + n - k,
        m.clone_weak_n(n).release_weak_n(k).destroyed == m.destroyed,
        m.clone_weak_n(n).release_weak_n(k).freed == if k == m.weak + n {
            1nat
        } else {
            0nat
        },
{
    lemma_clone_weak_n(m, n);
    lemma_release_weak_n(m.clone_weak_n(n), k);
}

} // verus!
