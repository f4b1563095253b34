use vstd::prelude::*;

use crate::game::pieces::TetrominoType;

verus! {

/// How many upcoming kinds the queue holds at least.
pub const NEXT_QUEUE_SIZE: usize = 5;

/// One step of the linear congruential generator, modulo 2^64.
pub open spec fn lcg_next(state: u64) -> u64 {
    ((state as int * 1664525 + 1013904223) % 0x1_0000_0000_0000_0000) as u64
}

/// The value drawn from a state: its high 32 bits.
pub open spec fn lcg_output(state: u64) -> u32 {
    (state as int / 0x1_0000_0000) as u32
}

/// Deterministic 64-bit linear congruential generator.
#[derive(Clone, Copy, Debug)]
pub struct SimpleRng {
    pub state: u64,
}

impl SimpleRng {
    pub fn new(seed: u64) -> (r: Self)
        ensures
            r.state == seed,
    {
        Self { state: seed }
    }

    pub fn next_u32(&mut self) -> (r: u32)
        ensures
            final(self).state == lcg_next(old(self).state),
            r == lcg_output(final(self).state),
    {
        let s = self.state;
        let m = s.wrapping_mul(1664525);
        let n = m.wrapping_add(1013904223);
        proof {
            let big = 0x1_0000_0000_0000_0000int;
            assert(m as int == (s as int * 1664525) % big);
            assert(n as int == (m as int + 1013904223) % big);
            vstd::arithmetic::div_mod::lemma_add_mod_noop(s as int * 1664525, 1013904223, big);
            vstd::arithmetic::div_mod::lemma_small_mod(1013904223nat, big as nat);
        }
        self.state = n;
        let out = n >> 32u64;
        assert(out == n / 0x1_0000_0000) by (bit_vector)
            requires
                out == n >> 32u64,
        ;
        out as u32
    }

    /// A value below `upper` (0 when `upper` is 0, without drawing).
    pub fn next_range(&mut self, upper: usize) -> (r: usize)
        ensures
            upper == 0 ==> r == 0 && final(self).state == old(self).state,
            upper > 0 ==> final(self).state == lcg_next(old(self).state) && r as int
                == lcg_output(final(self).state) as int % upper as int,
    {
        if upper == 0 {
            return 0;
        }
        (self.next_u32() as usize) % upper
    }
}

pub open spec fn canonical_bag() -> Seq<TetrominoType> {
    seq![
        TetrominoType::I,
        TetrominoType::O,
        TetrominoType::T,
        TetrominoType::S,
        TetrominoType::Z,
        TetrominoType::J,
        TetrominoType::L,
    ]
}

/// Fisher-Yates steps for positions `i` down to 1: the bag and generator state after them.
pub open spec fn shuffle_steps(bag: Seq<TetrominoType>, state: u64, i: int) -> (Seq<TetrominoType>, u64)
    decreases i,
{
    if i <= 0 {
        (bag, state)
    } else {
        let next = lcg_next(state);
        let j = lcg_output(next) as int % (i + 1);
        shuffle_steps(bag.update(i, bag[j]).update(j, bag[i]), next, i - 1)
    }
}

/// The bag that one refill appends when the generator is in `state`.
pub open spec fn drawn_bag(state: u64) -> Seq<TetrominoType> {
    shuffle_steps(canonical_bag(), state, 6).0
}

/// The generator state after one refill.
pub open spec fn state_after_bag(state: u64) -> u64 {
    shuffle_steps(canonical_bag(), state, 6).1
}

/// A permutation of the seven kinds: each once, none left out.
pub open spec fn is_bag(s: Seq<TetrominoType>) -> bool {
    &&& s.len() == 7
    &&& s.no_duplicates()
    &&& forall|k: TetrominoType| s.contains(k)
}

proof fn lemma_shuffle_keeps_bag(bag: Seq<TetrominoType>, state: u64, i: int)
    requires
        is_bag(bag),
        i < 7,
    ensures
        is_bag(shuffle_steps(bag, state, i).0),
    decreases i,
{
    if i > 0 {
        let next = lcg_next(state);
        let j = lcg_output(next) as int % (i + 1);
        let b2 = bag.update(i, bag[j]).update(j, bag[i]);
        let sigma = |a: int|
            if a == i {
                j
            } else if a == j {
                i
            } else {
                a
            };
        assert forall|a: int| 0 <= a < 7 implies #[trigger] b2[a] == bag[sigma(a)] by {}
        assert(b2.no_duplicates()) by {
            assert forall|a: int, b: int| 0 <= a < b2.len() && 0 <= b < b2.len() && a != b implies #[trigger] b2[a] != #[trigger] b2[b] by {
                assert(b2[a] == bag[sigma(a)]);
                assert(b2[b] == bag[sigma(b)]);
            }
        }
        assert forall|k: TetrominoType| b2.contains(k) by {
            assert(bag.contains(k));
            let m = choose|m: int| 0 <= m < bag.len() && bag[m] == k;
            assert(b2[sigma(m)] == bag[sigma(sigma(m))]);
        }
        lemma_shuffle_keeps_bag(b2, next, i - 1);
    }
}

/// Each refill draws a permutation of the seven kinds.
pub proof fn lemma_drawn_bag_is_permutation(state: u64)
    ensures
        is_bag(drawn_bag(state)),
{
    let c = canonical_bag();
    assert forall|k: TetrominoType| c.contains(k) by {
        match k {
            TetrominoType::I => assert(c[0] == k),
            TetrominoType::O => assert(c[1] == k),
            TetrominoType::T => assert(c[2] == k),
            TetrominoType::S => assert(c[3] == k),
            TetrominoType::Z => assert(c[4] == k),
            TetrominoType::J => assert(c[5] == k),
            TetrominoType::L => assert(c[6] == k),
        }
    }
    lemma_shuffle_keeps_bag(c, state, 6);
}

/// Shuffles the seven kinds and appends them to the queue.
pub fn refill_bag(rng: &mut SimpleRng, queue: &mut Vec<TetrominoType>)
    ensures
        final(queue)@ == old(queue)@ + drawn_bag(old(rng).state),
        final(rng).state == state_after_bag(old(rng).state),
{
    let mut bag = [
        TetrominoType::I,
        TetrominoType::O,
        TetrominoType::T,
        TetrominoType::S,
        TetrominoType::Z,
        TetrominoType::J,
        TetrominoType::L,
    ];
    assert(bag@ =~= canonical_bag());
    let ghost start = old(rng).state;
    let mut i: usize = 6;
    while i > 0
        invariant
            0 <= i <= 6,
            bag@.len() == 7,
            shuffle_steps(bag@, rng.state, i as int) == shuffle_steps(canonical_bag(), start, 6),
        decreases i,
    {
        let j = rng.next_range(i + 1);
        let t = bag[i];
        bag[i] = bag[j];
        bag[j] = t;
        i -= 1;
    }
    let ghost q0 = queue@;
    let mut k: usize = 0;
    while k < 7
        invariant
            0 <= k <= 7,
            bag@.len() == 7,
            bag@ == drawn_bag(start),
            queue@ == q0 + bag@.subrange(0, k as int),
        decreases 7 - k,
    {
        queue.push(bag[k]);
        assert(bag@.subrange(0, k + 1) =~= bag@.subrange(0, k as int).push(bag@[k as int]));
        k += 1;
    }
    assert(bag@.subrange(0, 7) =~= bag@);
}

/// The queue after topping it up: one more bag when it is shorter than the lookahead.
pub open spec fn topped_up(queue: Seq<TetrominoType>, state: u64) -> (Seq<TetrominoType>, u64) {
    if queue.len() >= NEXT_QUEUE_SIZE {
        (queue, state)
    } else {
        (queue + drawn_bag(state), state_after_bag(state))
    }
}

/// Refills until the queue holds at least the lookahead.
pub fn ensure_queue(rng: &mut SimpleRng, queue: &mut Vec<TetrominoType>)
    ensures
        (final(queue)@, final(rng).state) == topped_up(old(queue)@, old(rng).state),
        final(queue)@.len() >= NEXT_QUEUE_SIZE,
{
    proof {
        lemma_drawn_bag_is_permutation(old(rng).state);
    }
    while queue.len() < NEXT_QUEUE_SIZE
        invariant
            is_bag(drawn_bag(old(rng).state)),
            (queue@ == old(queue)@ && rng.state == old(rng).state) || ((queue@, rng.state)
                == topped_up(old(queue)@, old(rng).state) && queue@.len() >= NEXT_QUEUE_SIZE),
        decreases
                if queue@.len() < NEXT_QUEUE_SIZE {
                    1int
                } else {
                    0
                },
    {
        refill_bag(rng, queue);
    }
}

} // verus!
