use vstd::prelude::*;

verus! {

/// Seed of the corruption generator, so that every run corrupts the same bytes.
pub const INITIAL_STATE: u64 = 0x6a09e667f3bcc909;

/// Increment of the SplitMix64 generator (the golden-ratio constant).
pub const GOLDEN_GAMMA: u64 = 0x9e3779b97f4a7c15;

/// Allocations smaller than this many bytes are never corrupted.
pub const MIN_ALLOCATION_SIZE: u32 = 32;

/// Corruption never touches the first bytes of an allocation, where allocators
/// and runtimes keep their headers.
pub const PROTECTED_PREFIX: u32 = 16;

/// The SplitMix64 finaliser applied to an advanced state.
pub open spec fn splitmix64_mix(z0: u64) -> u64 {
    let z1 = (z0 ^ (z0 >> 30u64)).wrapping_mul(0xbf58476d1ce4e5b9u64);
    let z2 = (z1 ^ (z1 >> 27u64)).wrapping_mul(0x94d049bb133111ebu64);
    z2 ^ (z2 >> 31u64)
}

/// The generator state after one draw.
pub open spec fn advance_state(state: u64) -> u64 {
    state.wrapping_add(GOLDEN_GAMMA)
}

/// The number of frames between two corruption passes once `frames` frames have
/// elapsed: 240 at first, one frame shorter every 1800 frames, never below 60.
pub open spec fn corruption_interval(frames: u64) -> u64 {
    let slowdown = frames / 1800;
    let capped = if slowdown < 180 { slowdown } else { 180 };
    (240 - capped) as u64
}

/// The period actually used: the interval, but at least 30 frames.
pub open spec fn corruption_period(frames: u64) -> u64 {
    let interval = corruption_interval(frames);
    if interval >= 30 { interval } else { 30 }
}

/// Whether frame number `frames` is one on which a corruption pass runs.
pub open spec fn is_corruption_frame(frames: u64) -> bool {
    frames % corruption_period(frames) == 0
}

/// How many bytes one pass may corrupt: 1, plus one more every 3600 frames,
/// at most 8.
pub open spec fn pass_budget(frames: u64) -> u32 {
    let growth = frames / 3600;
    (1 + if growth < 7 { growth } else { 7 }) as u32
}

/// Whether a live allocation `(base, size)` is large enough to be corrupted.
pub open spec fn is_eligible(allocation: (u32, u32)) -> bool {
    allocation.1 >= MIN_ALLOCATION_SIZE
}

/// The offset inside an allocation of `size` bytes chosen by the draw `draw`.
pub open spec fn target_offset(draw: u64, size: u32) -> u32 {
    (PROTECTED_PREFIX + draw % ((size - PROTECTED_PREFIX) as u64)) as u32
}

/// What a [`Corruptor`] remembers between frames.
pub struct CorruptorView {
    pub enabled: bool,
    pub state: u64,
    pub frames: u64,
    pub total: u64,
}

/// A deterministic stress tester that, every few hundred frames, overwrites a
/// few bytes inside live guest heap allocations, never touching the header of an
/// allocation and never writing outside one.
///
/// A frame runs as: [`Corruptor::tick`]; if it answers `true`, the caller lists
/// the live allocations and asks [`Corruptor::begin_pass`] for a pass; then, while
/// [`Corruptor::next_target`] names a byte, the caller tries to write it and
/// reports the outcome with [`Corruptor::record_write`].
pub struct Corruptor {
    enabled: bool,
    state: u64,
    frames: u64,
    total: u64,
}

impl View for Corruptor {
    type V = CorruptorView;

    closed spec fn view(&self) -> CorruptorView {
        CorruptorView { enabled: self.enabled, state: self.state, frames: self.frames, total: self.total }
    }
}

/// What a [`CorruptionPass`] remembers between two targets.
pub struct CorruptionPassView {
    /// Bytes this pass may corrupt in all.
    pub limit: u32,
    /// Bytes this pass has corrupted so far.
    pub written: u32,
    /// Bytes that may still be corrupted in this pass.
    pub budget: u32,
    /// Index of the first allocation not yet considered.
    pub next_index: usize,
    /// Whether a target was handed out and its outcome is not yet recorded.
    pub pending: bool,
}

/// The progress of one corruption pass over a list of live allocations.
pub struct CorruptionPass {
    limit: u32,
    written: u32,
    budget: u32,
    next_index: usize,
    pending: bool,
}

impl View for CorruptionPass {
    type V = CorruptionPassView;

    closed spec fn view(&self) -> CorruptionPassView {
        CorruptionPassView {
            limit: self.limit,
            written: self.written,
            budget: self.budget,
            next_index: self.next_index,
            pending: self.pending,
        }
    }
}

impl CorruptionPass {
    #[verifier::type_invariant]
    spec fn well_formed(self) -> bool {
        &&& self.pending ==> self.budget > 0
        &&& self.written + self.budget == self.limit
        &&& 1 <= self.limit <= 8
    }

    /// Bytes that may still be corrupted in this pass.
    pub fn budget(&self) -> (r: u32)
        ensures
            r == self@.budget,
    {
        self.budget
    }

    /// Bytes this pass has corrupted so far; never more than the pass's limit,
    /// which is at most 8.
    pub fn written(&self) -> (r: u32)
        ensures
            r == self@.written,
            self@.written + self@.budget == self@.limit,
            1 <= self@.limit <= 8,
    {
        proof {
            use_type_invariant(self);
        }
        self.written
    }

    /// Whether a target was handed out whose outcome is not yet recorded.
    pub fn is_pending(&self) -> (r: bool)
        ensures
            r == self@.pending,
    {
        self.pending
    }

    /// Index of the first allocation that the pass has not considered yet.
    pub fn next_index(&self) -> (r: usize)
        ensures
            r == self@.next_index,
    {
        self.next_index
    }
}

impl Corruptor {
    /// A corruptor that acts only if `enabled`, seeded with [`INITIAL_STATE`].
    pub fn new(enabled: bool) -> (c: Corruptor)
        ensures
            c@ == (CorruptorView { enabled, state: INITIAL_STATE, frames: 0, total: 0 }),
    {
        Corruptor { enabled, state: INITIAL_STATE, frames: 0, total: 0 }
    }

    /// Whether the corruptor acts at all.
    pub fn is_enabled(&self) -> (r: bool)
        ensures
            r == self@.enabled,
    {
        self.enabled
    }

    /// Frames counted since creation (wrapping).
    pub fn frames(&self) -> (r: u64)
        ensures
            r == self@.frames,
    {
        self.frames
    }

    /// Bytes corrupted so far.
    pub fn total(&self) -> (r: u64)
        ensures
            r == self@.total,
    {
        self.total
    }

    /// Draws the next 64-bit value of the SplitMix64 sequence.
    pub fn next(&mut self) -> (r: u64)
        ensures
            final(self)@ == (CorruptorView { state: advance_state(old(self)@.state), ..old(self)@ }),
            r == splitmix64_mix(final(self)@.state),
            final(self)@.state == old(self)@.state.wrapping_add(0x9e3779b97f4a7c15u64),
            r == ({
                let z0 = final(self)@.state;
                let z1 = (z0 ^ (z0 >> 30u64)).wrapping_mul(0xbf58476d1ce4e5b9u64);
                let z2 = (z1 ^ (z1 >> 27u64)).wrapping_mul(0x94d049bb133111ebu64);
                z2 ^ (z2 >> 31u64)
            }),
    {
        self.state = self.state.wrapping_add(GOLDEN_GAMMA);
        let mut z: u64 = self.state;
        z = (z ^ (z >> 30u64)).wrapping_mul(0xbf58476d1ce4e5b9u64);
        z = (z ^ (z >> 27u64)).wrapping_mul(0x94d049bb133111ebu64);
        z ^ (z >> 31u64)
    }

    /// Counts one frame and says whether a corruption pass runs on it.
    /// A disabled corruptor does nothing and never runs a pass.
    pub fn tick(&mut self) -> (corrupt_now: bool)
        ensures
            !old(self)@.enabled ==> final(self)@ == old(self)@ && !corrupt_now,
            old(self)@.enabled ==> final(self)@ == (CorruptorView {
                frames: old(self)@.frames.wrapping_add(1),
                ..old(self)@
            }),
            old(self)@.enabled ==> corrupt_now == is_corruption_frame(final(self)@.frames),
            old(self)@.enabled ==> corrupt_now == (final(self)@.frames as int % (240 - if final(self)@.frames
                / 1800 < 180 {
                final(self)@.frames / 1800
            } else {
                180
            }) == 0),
    {
        if !self.enabled {
            return false;
        }
        self.frames = self.frames.wrapping_add(1);
        let slowdown: u64 = self.frames / 1800;
        let capped: u64 = if slowdown < 180 { slowdown } else { 180 };
        let interval: u64 = 240u64.saturating_sub(capped);
        let period: u64 = if interval >= 30 { interval } else { 30 };
        self.frames % period == 0
    }

    /// Starts a corruption pass over `allocations`, the live `(base, size)`
    /// allocations of the guest; there is none when no allocation is live.
    pub fn begin_pass(&self, allocations: &Vec<(u32, u32)>) -> (pass: Option<CorruptionPass>)
        ensures
            allocations@.len() == 0 <==> pass is None,
            pass matches Some(p) ==> p@ == (CorruptionPassView {
                limit: pass_budget(self@.frames),
                written: 0,
                budget: pass_budget(self@.frames),
                next_index: 0,
                pending: false,
            }),
            pass matches Some(p) ==> p@.budget == 1 + (if self@.frames / 3600 < 7 {
                self@.frames / 3600
            } else {
                7
            }),
    {
        if allocations.len() == 0 {
            return None;
        }
        let growth: u64 = self.frames / 3600;
        let capped: u64 = if growth < 7 { growth } else { 7 };
        let limit: u32 = 1 + capped as u32;
        Some(CorruptionPass { limit, written: 0, budget: limit, next_index: 0, pending: false })
    }
    /// Names the next byte of the pass to corrupt, as `(address, value)`: the
    /// next allocation, from the pass's position on, of at least
    /// [`MIN_ALLOCATION_SIZE`] bytes, at an offset drawn in
    /// `[PROTECTED_PREFIX, size)`, and a drawn value. There is none once the
    /// budget is spent or the allocations are exhausted.
    pub fn next_target(&mut self, pass: &mut CorruptionPass, allocations: &Vec<(u32, u32)>) -> (target:
        Option<(u32, u8)>)
        requires
            !old(pass)@.pending,
        ensures
            final(pass)@.limit == old(pass)@.limit,
            final(pass)@.written == old(pass)@.written,
            final(pass)@.budget == old(pass)@.budget,
            final(pass)@.pending == (target is Some),
            old(pass)@.budget == 0 ==> target is None && final(pass)@ == old(pass)@ && final(self)@
                == old(self)@,
            old(pass)@.budget > 0 && target is None ==> {
                &&& final(self)@ == old(self)@
                &&& final(pass)@.next_index == (if old(pass)@.next_index < allocations@.len() {
                    allocations@.len() as int
                } else {
                    old(pass)@.next_index as int
                })
                &&& forall|k: int|
                    old(pass)@.next_index <= k < allocations@.len() ==> !is_eligible(
                        #[trigger] allocations@[k],
                    )
            },
            target matches Some(t) ==> {
                let j = final(pass)@.next_index - 1;
                let s1 = advance_state(old(self)@.state);
                let s2 = advance_state(s1);
                &&& old(pass)@.budget > 0
                &&& old(pass)@.next_index <= j < allocations@.len()
                &&& forall|k: int|
                    old(pass)@.next_index <= k < j ==> !is_eligible(#[trigger] allocations@[k])
                &&& is_eligible(allocations@[j])
                &&& final(self)@ == (CorruptorView { state: s2, ..old(self)@ })
                &&& t.0 == allocations@[j].0.saturating_add(
                    target_offset(splitmix64_mix(s1), allocations@[j].1),
                )
                &&& t.1 == splitmix64_mix(s2) as u8
                &&& allocations@[j].1 >= 32
                &&& forall|k: int| old(pass)@.next_index <= k < j ==> #[trigger] allocations@[k].1 < 32
                &&& t.0 as int == if allocations@[j].0 + 16 + splitmix64_mix(s1) % ((allocations@[j].1 - 16) as u64)
                    > u32::MAX {
                    u32::MAX as int
                } else {
                    allocations@[j].0 + 16 + splitmix64_mix(s1) % ((allocations@[j].1 - 16) as u64)
                }
            },
            old(pass)@.budget > 0 && (exists|k: int|
                old(pass)@.next_index <= k < allocations@.len() && #[trigger] allocations@[k].1 >= 32)
                ==> target is Some,
    {
        proof {
            use_type_invariant(&*pass);
        }
        if pass.budget == 0 {
            return None;
        }
        let len = allocations.len();
        let start = pass.next_index;
        let mut i = start;
        while i < len
            invariant
                start == old(pass)@.next_index,
                len == allocations@.len(),
                start <= i,
                start < len ==> i <= len,
                start >= len ==> i == start,
                self@ == old(self)@,
                pass@ == old(pass)@,
                pass.budget > 0,
                pass.written + pass.budget == pass.limit,
                1 <= pass.limit <= 8,
                forall|k: int| start <= k < i ==> !is_eligible(#[trigger] allocations@[k]),
            decreases len - i,
        {
            let (base, size) = allocations[i];
            i = i + 1;
            if size >= MIN_ALLOCATION_SIZE {
                let span: u64 = size.saturating_sub(PROTECTED_PREFIX) as u64;
                let draw = self.next();
                let offset: u32 = PROTECTED_PREFIX + (draw % span) as u32;
                let value: u8 = self.next() as u8;
                *pass = CorruptionPass {
                    limit: pass.limit,
                    written: pass.written,
                    budget: pass.budget,
                    next_index: i,
                    pending: true,
                };
                return Some((base.saturating_add(offset), value));
            }
        }
        pass.next_index = i;
        None
    }

    /// Records whether the byte last named by [`Corruptor::next_target`] was
    /// written: a written byte counts towards the total and spends one unit of
    /// the pass's budget.
    pub fn record_write(&mut self, pass: &mut CorruptionPass, written: bool)
        requires
            old(pass)@.pending,
            written ==> old(self)@.total < u64::MAX,
        ensures
            final(pass)@ == (CorruptionPassView {
                written: if written {
                    (old(pass)@.written + 1) as u32
                } else {
                    old(pass)@.written
                },
                budget: if written {
                    (old(pass)@.budget - 1) as u32
                } else {
                    old(pass)@.budget
                },
                pending: false,
                ..old(pass)@
            }),
            final(self)@ == (CorruptorView {
                total: if written {
                    (old(self)@.total + 1) as u64
                } else {
                    old(self)@.total
                },
                ..old(self)@
            }),
    {
        proof {
            use_type_invariant(&*pass);
        }
        if written {
            self.total = self.total + 1;
            *pass = CorruptionPass {
                limit: pass.limit,
                written: pass.written + 1,
                budget: pass.budget - 1,
                next_index: pass.next_index,
                pending: false,
            };
        } else {
            pass.pending = false;
        }
    }
}


/// A drawn offset always lies past the protected prefix and inside the
/// allocation.
pub proof fn lemma_target_offset_in_bounds(draw: u64, size: u32)
    requires
        size >= MIN_ALLOCATION_SIZE,
    ensures
        PROTECTED_PREFIX <= target_offset(draw, size) < size,
{
}

/// Every byte that a pass names lies inside its allocation and past the
/// allocation's first [`PROTECTED_PREFIX`] bytes, for any allocation that fits in
/// the 32-bit guest address space.
pub proof fn lemma_target_inside_allocation(base: u32, size: u32, draw: u64)
    requires
        size >= MIN_ALLOCATION_SIZE,
        base + size <= u32::MAX + 1,
    ensures
        base + PROTECTED_PREFIX <= base.saturating_add(target_offset(draw, size)) < base + size,
{
    lemma_target_offset_in_bounds(draw, size);
}

/// Corruption passes come every 240 frames at first and grow more frequent as
/// frames go by, down to every 60 frames; the 30-frame floor never applies.
pub proof fn lemma_corruption_interval_bounds(frames: u64)
    ensures
        60 <= corruption_interval(frames) <= 240,
        corruption_period(frames) == corruption_interval(frames),
        frames < 1800 ==> corruption_interval(frames) == 240,
        frames >= 324000 ==> corruption_interval(frames) == 60,
{
}

/// Later frames never have a longer interval than earlier ones.
pub proof fn lemma_corruption_interval_non_increasing(earlier: u64, later: u64)
    requires
        earlier <= later,
    ensures
        corruption_interval(later) <= corruption_interval(earlier),
{
    assert(earlier / 1800 <= later / 1800) by (nonlinear_arith)
        requires
            earlier <= later,
    ;
}

/// A pass corrupts at least one and at most eight bytes' worth of budget, and
/// the budget never shrinks as frames go by.
pub proof fn lemma_pass_budget_bounds(earlier: u64, later: u64)
    requires
        earlier <= later,
    ensures
        1 <= pass_budget(earlier) <= pass_budget(later) <= 8,
        earlier < 3600 ==> pass_budget(earlier) == 1,
{
    assert(earlier / 3600 <= later / 3600) by (nonlinear_arith)
        requires
            earlier <= later,
    ;
}


/// Only the size decides whether an allocation is corrupted: every allocation
/// of at least 32 bytes qualifies, however large, and no smaller one does.
pub proof fn lemma_eligibility_is_size_at_least_32(allocation: (u32, u32))
    ensures
        is_eligible(allocation) <==> allocation.1 >= 32,
        is_eligible((allocation.0, 32)),
        is_eligible((allocation.0, u32::MAX)),
        !is_eligible((allocation.0, 31)),
{
}

/// The corruption interval starts at 240 frames and shrinks by exactly one
/// frame every 1800 frames until it reaches 60; frames within the same
/// 1800-frame block share an interval.
pub proof fn lemma_corruption_interval_steps(frames: u64, other: u64)
    ensures
        frames < 1800 ==> corruption_interval(frames) == 240,
        frames >= 324000 ==> corruption_interval(frames) == 60,
        frames < 324000 ==> corruption_interval((frames + 1800) as u64) == corruption_interval(frames) - 1,
        frames / 1800 == other / 1800 ==> corruption_interval(frames) == corruption_interval(other),
        corruption_interval(frames) + (if frames / 1800 < 180 {
            frames / 1800
        } else {
            180
        }) == 240,
        is_corruption_frame(frames) <==> frames % corruption_interval(frames) == 0,
{
    if frames < 324000 {
        assert((frames + 1800) / 1800 == frames / 1800 + 1) by (nonlinear_arith)
            requires
                frames < 324000,
        ;
    }
    if frames >= 324000 {
        assert(frames / 1800 >= 180) by (nonlinear_arith)
            requires
                frames >= 324000,
        ;
    }
}

/// The budget of a pass is one byte in the first 3600 frames, one more for
/// every further 3600 frames, and eight from frame 25200 on.
pub proof fn lemma_pass_budget_steps(frames: u64, other: u64)
    ensures
        frames < 3600 ==> pass_budget(frames) == 1,
        frames >= 25200 ==> pass_budget(frames) == 8,
        frames < 25200 ==> pass_budget((frames + 3600) as u64) == pass_budget(frames) + 1,
        frames / 3600 == other / 3600 ==> pass_budget(frames) == pass_budget(other),
{
    if frames < 25200 {
        assert((frames + 3600) / 3600 == frames / 3600 + 1) by (nonlinear_arith)
            requires
                frames < 25200,
        ;
    }
    if frames >= 25200 {
        assert(frames / 3600 >= 7) by (nonlinear_arith)
            requires
                frames >= 25200,
        ;
    }
}

/// The offset of a target is 16 plus the draw reduced modulo the size of the
/// allocation past its header, for every draw and every allocation of at least
/// 32 bytes.
pub proof fn lemma_target_offset_is_draw_past_header(draw: u64, size: u32)
    requires
        size >= 32,
    ensures
        target_offset(draw, size) as int == 16 + draw as int % (size as int - 16),
        target_offset(draw, size) as int - 16 < size as int - 16,
        draw < size - 16 ==> target_offset(draw, size) == draw + 16,
{
    if draw < size - 16 {
        vstd::arithmetic::div_mod::lemma_small_mod(draw as nat, (size - 16) as nat);
    }
}

/// Each draw moves the generator state forward by the golden-ratio constant,
/// modulo 2^64.
pub proof fn lemma_state_advances_by_gamma(state: u64)
    ensures
        advance_state(state) as int == (state as int + 0x9e3779b97f4a7c15int) % 0x1_0000_0000_0000_0000int,
{
}

} // verus!
