//! The list of compiled pipeline variants and the cursor that selects one.
use vstd::prelude::*;
use vstd::arithmetic::div_mod::{lemma_mod_add_multiples_vanish, lemma_mod_bound, lemma_small_mod};

verus! {

/// What a pipeline variant reads besides its shader: the shared texture and
/// sampler set, and the uploaded vertex and index buffers. A variant without
/// vertex input draws `vertex_count` vertices that its shader generates.
#[derive(Clone, Copy, Debug, PartialEq, Eq, Structural)]
pub struct VariantLayout {
    pub uses_resources: bool,
    pub uses_geometry: bool,
    pub vertex_count: u32,
}

/// One compiled pipeline together with the layout it was compiled against.
pub struct PipelineVariant<P> {
    pub pipeline: P,
    pub layout: VariantLayout,
}

/// Pipeline variants compiled once, in a fixed order, and the index of the
/// one in use. The index always lies in `[0, variant count)`.
pub struct PipelineRegistry<P> {
    variants: Vec<PipelineVariant<P>>,
    active: usize,
}

/// The index that follows `i` when `n` variants are cycled through.
pub open spec fn next_index(i: int, n: int) -> int {
    (i + 1) % n
}

/// The index reached from `i` after `k` steps of cycling through `n` variants.
pub open spec fn cycled(i: int, n: int, k: nat) -> int
    decreases k,
{
    if k == 0 {
        i
    } else {
        next_index(cycled(i, n, (k - 1) as nat), n)
    }
}

impl<P> PipelineRegistry<P> {
    pub closed spec fn spec_variants(&self) -> Seq<PipelineVariant<P>> {
        self.variants@
    }

    pub closed spec fn spec_active(&self) -> int {
        self.active as int
    }

    pub open spec fn spec_len(&self) -> int {
        self.spec_variants().len() as int
    }

    /// At least one variant, and the cursor on one of them.
    pub open spec fn wf(&self) -> bool {
        &&& self.spec_len() > 0
        &&& 0 <= self.spec_active() < self.spec_len()
    }

    /// The registry of the given variants, with the first one in use; `None`
    /// when there is no variant.
    pub fn new(variants: Vec<PipelineVariant<P>>) -> (r: Option<PipelineRegistry<P>>)
        ensures
            r.is_some() == (variants@.len() > 0),
            r matches Some(reg) ==> {
                &&& reg.wf()
                &&& reg.spec_variants() == variants@
                &&& reg.spec_active() == 0
            },
    {
        if variants.len() > 0 {
            Some(PipelineRegistry { variants, active: 0 })
        } else {
            None
        }
    }

    /// Moves the cursor to the next variant, wrapping round after the last.
    /// Nothing is compiled again.
    pub fn cycle(&mut self)
        requires
            old(self).wf(),
        ensures
            final(self).wf(),
            final(self).spec_variants() == old(self).spec_variants(),
            final(self).spec_active() == next_index(old(self).spec_active(), old(self).spec_len()),
    {
        let n = self.variants.len();
        proof {
            lemma_wrap_mod(self.active as int + 1, n as int);
        }
        if self.active + 1 == n {
            self.active = 0;
        } else {
            self.active = self.active + 1;
        }
    }

    pub fn active(&self) -> (r: usize)
        ensures
            r == self.spec_active(),
    {
        self.active
    }

    pub fn len(&self) -> (r: usize)
        ensures
            r == self.spec_len(),
    {
        self.variants.len()
    }

    /// The variant at `i`.
    pub fn variant(&self, i: usize) -> (r: &PipelineVariant<P>)
        requires
            i < self.spec_len(),
        ensures
            *r == self.spec_variants()[i as int],
    {
        &self.variants[i]
    }

    /// The variant in use.
    pub fn active_variant(&self) -> (r: &PipelineVariant<P>)
        requires
            self.wf(),
        ensures
            *r == self.spec_variants()[self.spec_active()],
    {
        &self.variants[self.active]
    }
}

/// Below `2 n`, taking the remainder by `n` subtracts `n` at most once.
proof fn lemma_wrap_mod(x: int, n: int)
    requires
        0 <= x < 2 * n,
    ensures
        x % n == if x < n { x } else { x - n },
{
    if x < n {
        lemma_small_mod(x as nat, n as nat);
    } else {
        lemma_mod_add_multiples_vanish(x - n, n);
        lemma_small_mod((x - n) as nat, n as nat);
    }
}

/// Some step among the first `n` of cycling from `i` lands on `j`.
pub open spec fn reached_within(i: int, n: int, j: int) -> bool {
    exists|k: nat| k < n && #[trigger] cycled(i, n, k) == j
}

/// `k` steps of cycling from `i` land on `(i + k) mod n`.
proof fn lemma_cycled_closed_form(i: int, n: int, k: nat)
    requires
        n >= 1,
        0 <= i < n,
    ensures
        cycled(i, n, k) == (i + k) % n,
    decreases k,
{
    if k > 0 {
        lemma_cycled_closed_form(i, n, (k - 1) as nat);
        let prev = (i + k - 1) % n;
        lemma_mod_bound(i + k - 1, n);
        lemma_wrap_mod(prev + 1, n);
        // (i + k) mod n, taken from the quotient of i + k - 1
        let q = (i + k - 1) / n;
        assert(i + k - 1 == n * q + prev) by {
            vstd::arithmetic::div_mod::lemma_fundamental_div_mod(i + k - 1, n);
        }
        assert((i + k) % n == (prev + 1) % n) by {
            vstd::arithmetic::div_mod::lemma_mod_multiples_vanish(q, prev + 1, n);
        }
    } else {
        lemma_small_mod(i as nat, n as nat);
    }
}

/// Cycling through `n ≥ 1` variants from a valid index `i` steps to
/// `(i + 1) mod n` each time: it never leaves `[0, n)`, and `n` steps visit
/// every index exactly once before coming back to `i`.
pub proof fn lemma_cycle_visits_every_variant(i: int, n: int)
    requires
        n >= 1,
        0 <= i < n,
    ensures
        forall|k: nat| 0 <= #[trigger] cycled(i, n, k) < n,
        forall|k: nat| #[trigger] cycled(i, n, k + 1) == next_index(cycled(i, n, k), n),
        cycled(i, n, n as nat) == i,
        forall|j: int| 0 <= j < n ==> #[trigger] reached_within(i, n, j),
        forall|k1: nat, k2: nat|
            k1 < n && k2 < n && #[trigger] cycled(i, n, k1) == #[trigger] cycled(i, n, k2) ==> k1 == k2,
{
    assert forall|k: nat| 0 <= #[trigger] cycled(i, n, k) < n by {
        lemma_cycled_closed_form(i, n, k);
        lemma_mod_bound(i + k, n);
    }
    assert forall|k: nat| #[trigger] cycled(i, n, k + 1) == next_index(cycled(i, n, k), n) by {
        assert((k + 1) as nat - 1 == k);
    }
    lemma_cycled_closed_form(i, n, n as nat);
    lemma_wrap_mod(i + n, n);
    assert forall|j: int| 0 <= j < n implies #[trigger] reached_within(i, n, j) by {
        let k: nat = if j >= i { (j - i) as nat } else { (j - i + n) as nat };
        lemma_cycled_closed_form(i, n, k);
        lemma_wrap_mod(i + k, n);
        assert(cycled(i, n, k) == j);
    }
    assert forall|k1: nat, k2: nat|
        k1 < n && k2 < n && #[trigger] cycled(i, n, k1) == #[trigger] cycled(i, n, k2) implies k1 == k2 by {
        lemma_cycled_closed_form(i, n, k1);
        lemma_cycled_closed_form(i, n, k2);
        lemma_wrap_mod(i + k1, n);
        lemma_wrap_mod(i + k2, n);
    }
}

} // verus!
