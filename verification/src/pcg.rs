use vstd::prelude::*;

verus! {

/// Multiplier of the underlying 64-bit linear congruential step.
pub const PCG_MUL: u64 = 6364136223846793005;

/// Default increment. Any odd value keeps the recurrence at full period;
/// this particular one is required so that generators seeded through
/// `PcgXshRr::new` reproduce the conventional default stream.
pub const PCG_DEFAULT_INC: u64 = 1442695040888963407;

/// Number of rejected draws after which the bounded sampler accepts the
/// next draw unconditionally. The classic rejection loop retries
/// forever; proving that the loop terminates needs a cap, and 2^64 - 1
/// rejected draws are far beyond what any caller can run, so the two
/// policies never differ in practice.
pub const MAX_REJECTS: u64 = 0xffff_ffff_ffff_ffff;

/// Mathematical view of a generator: the current 64-bit state and the
/// stream increment.
pub struct GenView {
    pub state: u64,
    pub inc: u64,
}

impl GenView {
    /// A well-formed generator has an odd increment; the step function
    /// then has no fixed point and the recurrence has full period.
    pub open spec fn wf(&self) -> bool {
        self.inc % 2 == 1
    }
}

/// Product of `a` and `b` reduced modulo 2^64.
pub open spec fn wrap_mul(a: u64, b: u64) -> u64 {
    (((a as int) * (b as int)) % 0x1_0000_0000_0000_0000) as u64
}

/// Sum of `a` and `b` reduced modulo 2^64.
pub open spec fn wrap_add(a: u64, b: u64) -> u64 {
    (((a as int) + (b as int)) % 0x1_0000_0000_0000_0000) as u64
}

/// One step of the linear congruential recurrence:
/// `state * PCG_MUL + inc`, modulo 2^64.
pub open spec fn lcg_step(state: u64, inc: u64) -> u64 {
    wrap_add(wrap_mul(state, PCG_MUL), inc)
}

/// The XSH part of the output permutation: fold the high bits into the
/// middle with a xorshift, then keep the low 32 of bits 27..=63.
pub open spec fn xorshift(s: u64) -> u32 {
    ((((s ^ (s >> 18)) >> 27) & 0xffff_ffff) as u32)
}

/// The RR part: the rotation amount is the top five bits of the state.
pub open spec fn rot_amount(s: u64) -> u32 {
    ((s >> 59) as u32)
}

/// Right rotation of a 32-bit word by `r` bits.
pub open spec fn rotr32(x: u32, r: u32) -> u32
    recommends
        r < 32,
{
    if r == 0 {
        x
    } else {
        (x >> r) | (x << ((32 - r) as u32))
    }
}

/// The XSH-RR output permutation of a (freshly stepped) state.
pub open spec fn xsh_rr(s: u64) -> u32 {
    rotr32(xorshift(s), rot_amount(s))
}

/// The state reached after `n` steps from `g`.
pub open spec fn nth_state(g: GenView, n: nat) -> u64
    decreases n,
{
    if n == 0 {
        g.state
    } else {
        lcg_step(nth_state(g, (n - 1) as nat), g.inc)
    }
}

/// The `n`-th output of the stream that starts at `g`, counting from
/// zero: the permutation of the state after `n + 1` steps. The whole
/// output sequence is a pure function of the initial view.
pub open spec fn nth_output(g: GenView, n: nat) -> u32 {
    xsh_rr(nth_state(g, n + 1))
}

/// The increment chosen by the canonical seeding procedure: the
/// parameter is doubled and its low bit forced to one, so the result is
/// always odd.
pub open spec fn seeded_inc(inc_param: u64) -> u64 {
    (inc_param << 1) | 1
}

/// The view a generator starts from when seeded with `(seed, inc_param)`
/// by the canonical procedure: increment as above, initial state equal
/// to increment plus seed, modulo 2^64.
pub open spec fn seeded_view(seed: u64, inc_param: u64) -> GenView {
    GenView { state: wrap_add(seeded_inc(inc_param), seed), inc: seeded_inc(inc_param) }
}

/// How many raw values a draw against `bound` rejects before accepting:
/// the lowest `(2^32 - bound) % bound` values are discarded, which makes
/// the accepted values split evenly over the residue classes modulo
/// `bound`.
pub open spec fn reject_threshold(bound: u32) -> u32
    recommends
        1 <= bound,
{
    (((0x1_0000_0000 - bound as int) % (bound as int)) as u32)
}

/// The `(state, output)` pair that the bounded rejection loop reaches
/// from `(state, inc)`: step and draw until the draw clears the
/// rejection threshold, accepting unconditionally once `fuel` runs out.
pub open spec fn bounded_draw(state: u64, inc: u64, bound: u32, fuel: nat) -> (u64, u32)
    recommends
        1 <= bound,
    decreases fuel,
{
    let stepped = lcg_step(state, inc);
    let val = xsh_rr(stepped);
    if val >= reject_threshold(bound) || fuel == 0 {
        (stepped, val % bound)
    } else {
        bounded_draw(stepped, inc, bound, (fuel - 1) as nat)
    }
}

/// A PCG XSH-RR generator: 64-bit linear congruential state, 32-bit
/// permuted output. The state is never exposed directly; contracts speak
/// of it through the view.
pub struct PcgXshRr {
    state: u64,
    inc: u64,
}

impl View for PcgXshRr {
    type V = GenView;

    closed spec fn view(&self) -> GenView {
        GenView { state: self.state, inc: self.inc }
    }
}

impl PcgXshRr {
    /// Seed with the default increment: the initial state is the default
    /// increment plus the seed, modulo 2^64.
    pub fn new(state: &u64) -> (r: Self)
        ensures
            r@.inc == PCG_DEFAULT_INC,
            r@.state == wrap_add(PCG_DEFAULT_INC, *state),
            r@.wf(),
    {
        let init_state: u64 = wrapping_add_u64(PCG_DEFAULT_INC, *state);
        PcgXshRr { state: init_state, inc: PCG_DEFAULT_INC }
    }

    /// Seed exactly as the canonical PCG seeding procedure does:
    /// `inc = inc_param * 2 + 1`, `state = inc + seed` (modulo 2^64), so
    /// that equal `(seed, inc_param)` pairs select the identical stream.
    pub fn new2(state: &u64, inc: &u64) -> (r: Self)
        ensures
            r@ == seeded_view(*state, *inc),
            r@.wf(),
    {
        let init_inc: u64 = (*inc << 1u64) | 1;
        let init_state: u64 = wrapping_add_u64(init_inc, *state);
        proof {
            lemma_seeded_inc_odd(*inc);
        }
        PcgXshRr { state: init_state, inc: init_inc }
    }

    /// Advance the state by one step of the recurrence and return the
    /// XSH-RR permutation of the new state. Never fails, and advances
    /// the state exactly once per call.
    pub fn next(&mut self) -> (r: u32)
        ensures
            final(self)@.inc == old(self)@.inc,
            final(self)@.state == lcg_step(old(self)@.state, old(self)@.inc),
            r == xsh_rr(final(self)@.state),
    {
        self.state = wrapping_add_u64(self.state.wrapping_mul(PCG_MUL), self.inc);
        let s: u64 = self.state;
        proof {
            assert(s >> 59 < 32) by (bit_vector);
            assert(((s ^ (s >> 18)) >> 27) & 0xffff_ffff < 0x1_0000_0000) by (bit_vector);
        }
        let xorshifted: u32 = (((s ^ (s >> 18)) >> 27) & 0xffff_ffff) as u32;
        let rot: u32 = (s >> 59) as u32;
        if rot == 0 {
            xorshifted
        } else {
            (xorshifted >> rot) | (xorshifted << (32 - rot))
        }
    }

    /// Draw a value uniformly distributed over `[0, bound)`, rejecting
    /// low raw values so that no residue class modulo `bound` is
    /// favored. A zero bound is invalid (it would ask for a modulus by
    /// zero) and is excluded by precondition; the facade rejects it with
    /// an explicit error instead.
    ///
    /// Each rejected draw advances the state once more, so the final
    /// state is pinned by `bounded_draw` rather than being one step from
    /// the old one.
    pub fn next_bounded(&mut self, bound: &u32) -> (r: u32)
        requires
            1 <= *bound,
        ensures
            final(self)@.inc == old(self)@.inc,
            final(self)@.state == bounded_draw(
                old(self)@.state,
                old(self)@.inc,
                *bound,
                MAX_REJECTS as nat,
            ).0,
            r == bounded_draw(old(self)@.state, old(self)@.inc, *bound, MAX_REJECTS as nat).1,
            r < *bound,
    {
        let b: u32 = *bound;
        let threshold: u32 = ((u32::MAX - b) + 1) % b;
        let mut fuel: u64 = MAX_REJECTS;
        loop
            invariant
                1 <= b,
                b == *bound,
                threshold == reject_threshold(b),
                self@.inc == old(self)@.inc,
                bounded_draw(old(self)@.state, old(self)@.inc, b, MAX_REJECTS as nat)
                    == bounded_draw(self@.state, self@.inc, b, fuel as nat),
            decreases fuel,
        {
            let ghost pre: GenView = self@;
            let val: u32 = self.next();
            if val >= threshold || fuel == 0 {
                proof {
                    assert(bounded_draw(pre.state, pre.inc, b, fuel as nat) == (
                        self@.state,
                        val % b,
                    ));
                }
                return val % b;
            }
            fuel = fuel - 1;
            proof {
                assert(bounded_draw(pre.state, pre.inc, b, (fuel + 1) as nat) == bounded_draw(
                    self@.state,
                    self@.inc,
                    b,
                    fuel as nat,
                ));
            }
        }
    }
}

/// With an odd increment the step function has no fixed point: the
/// multiplier is odd, so stepping flips the parity of the state, and the
/// new state can never equal the old one.
pub proof fn lemma_step_has_no_fixed_point(state: u64, inc: u64)
    requires
        inc % 2 == 1,
    ensures
        lcg_step(state, inc) != state,
{
    let r: int = 0x1_0000_0000_0000_0000;
    let half: int = 0x8000_0000_0000_0000;
    let s: int = state as int;
    let p: int = s * (PCG_MUL as int);
    // The multiplier is odd, so the product has the parity of the state.
    assert(s * 6364136223846793005 == 2 * (s * 3182068111923396502) + s) by (nonlinear_arith);
    assert(p == 2 * (s * 3182068111923396502) + s);
    vstd::arithmetic::div_mod::lemma_mod_multiples_vanish(s * 3182068111923396502, s, 2);
    // Reducing modulo 2^64 preserves parity.
    vstd::arithmetic::div_mod::lemma_mod_mod(p, 2, half);
    let m: int = wrap_mul(state, PCG_MUL) as int;
    assert(m == p % r);
    assert(m % 2 == s % 2);
    // Adding the odd increment flips it.
    let x: int = m + (inc as int);
    vstd::arithmetic::div_mod::lemma_add_mod_noop(m, inc as int, 2);
    assert(x % 2 != s % 2);
    vstd::arithmetic::div_mod::lemma_mod_mod(x, 2, half);
    assert((x % r) % 2 == x % 2);
    assert(lcg_step(state, inc) as int == x % r);
}

/// Every step advances the state: along any stream with an odd
/// increment, consecutive states always differ, so no call can return an
/// output without moving the generator forward.
pub proof fn lemma_state_advances(g: GenView, n: nat)
    requires
        g.wf(),
    ensures
        nth_state(g, n + 1) != nth_state(g, n),
{
    lemma_step_has_no_fixed_point(nth_state(g, n), g.inc);
    assert(nth_state(g, n + 1) == lcg_step(nth_state(g, n), g.inc));
}

/// A generator sitting at the `n`-th state of the stream of `g` that
/// takes one step (as `next` does, by its contract) reaches the
/// `(n + 1)`-th state and produces the `n`-th output. Chained over
/// successive calls, this pins the entire output sequence as a pure
/// function of the initial view: any two conforming generators started
/// from equal views return identical sequences.
pub proof fn lemma_next_walks_stream(g: GenView, cur: GenView, stepped: GenView, r: u32, n: nat)
    requires
        cur.inc == g.inc,
        cur.state == nth_state(g, n),
        stepped.inc == cur.inc,
        stepped.state == lcg_step(cur.state, cur.inc),
        r == xsh_rr(stepped.state),
    ensures
        stepped.state == nth_state(g, n + 1),
        r == nth_output(g, n),
{
    assert(nth_state(g, n + 1) == lcg_step(nth_state(g, n), g.inc));
}

/// The rejection threshold is always below the bound, so at every
/// iteration of the bounded sampler a nonempty set of raw values is
/// accepted: the loop can always make progress.
pub proof fn lemma_threshold_below_bound(bound: u32)
    requires
        1 <= bound,
    ensures
        reject_threshold(bound) < bound,
{
}

/// The seeding procedure always yields an odd increment.
pub proof fn lemma_seeded_inc_odd(inc_param: u64)
    ensures
        seeded_inc(inc_param) % 2 == 1,
{
    assert(((inc_param << 1u64) | 1) % 2 == 1) by (bit_vector);
}

/// Wrapping addition on `u64`, with its result stated as a reduction
/// modulo 2^64.
fn wrapping_add_u64(a: u64, b: u64) -> (r: u64)
    ensures
        r == wrap_add(a, b),
{
    let r: u64 = a.wrapping_add(b);
    proof {
        let x: int = (a as int) + (b as int);
        let q: int = if x >= 0x1_0000_0000_0000_0000 {
            1
        } else {
            0
        };
        vstd::arithmetic::div_mod::lemma_fundamental_div_mod_converse_mod(
            x,
            0x1_0000_0000_0000_0000,
            q,
            x - q * 0x1_0000_0000_0000_0000,
        );
    }
    r
}

} // verus!
