use crate::pcg::{bounded_draw, lcg_step, seeded_view, xsh_rr, GenView, PcgXshRr, MAX_REJECTS};
use vstd::prelude::*;

verus! {

/// The facade: one generator, always seeded with the fixed default
/// parameters (seed 42, increment parameter 54). Callers needing a
/// different stream construct a `PcgXshRr` directly.
pub struct Rand {
    rnd: PcgXshRr,
}

impl View for Rand {
    type V = GenView;

    closed spec fn view(&self) -> GenView {
        self.rnd@
    }
}

impl Rand {
    /// Construct the single supported configuration: the stream seeded
    /// with `(42, 54)` by the canonical procedure.
    pub fn new() -> (r: Self)
        ensures
            r@ == seeded_view(42, 54),
            r@.wf(),
    {
        Rand { rnd: PcgXshRr::new2(&42, &54) }
    }

    /// The next raw 32-bit value of the default stream. The result fits
    /// any wider numeric representation without loss.
    pub fn next_int(&mut self) -> (r: u32)
        ensures
            final(self)@.inc == old(self)@.inc,
            final(self)@.state == lcg_step(old(self)@.state, old(self)@.inc),
            r == xsh_rr(final(self)@.state),
    {
        self.rnd.next()
    }

    /// The next value of the default stream, uniformly distributed over
    /// `[0, bound)`. The bound arrives already coerced to an unsigned
    /// 32-bit value; a bound of zero is invalid (there is no empty range
    /// to draw from) and is rejected with `None` before the generator is
    /// touched.
    pub fn next_int_bounded(&mut self, bound: u32) -> (r: Option<u32>)
        ensures
            final(self)@.inc == old(self)@.inc,
            r is Some <==> 1 <= bound,
            bound == 0 ==> final(self)@ == old(self)@,
            1 <= bound ==> final(self)@.state == bounded_draw(
                old(self)@.state,
                old(self)@.inc,
                bound,
                MAX_REJECTS as nat,
            ).0,
            1 <= bound ==> r == Some(
                bounded_draw(old(self)@.state, old(self)@.inc, bound, MAX_REJECTS as nat).1,
            ),
            r matches Some(v) ==> v < bound,
    {
        if bound == 0 {
            None
        } else {
            Some(self.rnd.next_bounded(&bound))
        }
    }
}

} // verus!
