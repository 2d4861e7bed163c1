//! Block-level wiring of the barrel shifter behind encrypted shifts and rotations.
//!
//! An encrypted integer is a sequence of blocks. Shifting or rotating it by an encrypted amount
//! runs in three stages: an intra-block shift by one bit, a merge of each block with the bits
//! spilling over from its neighbour, and a butterfly of block swaps, one per higher bit of the
//! amount, stage `s` moving blocks by `2^s` positions when its bit is set. This module computes
//! that wiring and proves that the swap stages compose into a shift or rotation of the blocks.
use vstd::prelude::*;
use vstd::arithmetic::power2::pow2;

verus! {

/// The kind of shift or rotate operation.
#[derive(Debug, Clone, Copy, PartialEq, Eq, Structural)]
pub enum ShiftRotKind {
    ShiftRight,
    ShiftLeft,
    RotateRight,
    RotateLeft,
}

/// Which bit position in the carry field a swap stage tests as its condition.
#[derive(Debug, Clone, Copy, PartialEq, Eq, Structural)]
pub enum CondPos {
    /// Bit 0 of the carry (LSB).
    Pos0,
    /// Bit 1 of the carry.
    Pos1,
}

/// Lookup tables applied by the shifter.
#[derive(Debug, Clone, Copy, PartialEq, Eq, Structural)]
pub enum Lut1Def {
    /// Part of a block staying in place after a right shift by the carry's bit 0.
    ShiftRightByCarryPos0Msg,
    /// Part of a block spilling into its neighbour after a right shift by the carry's bit 0.
    ShiftRightByCarryPos0MsgNext,
    /// Part of a block staying in place after a left shift by the carry's bit 0.
    ShiftLeftByCarryPos0Msg,
    /// Part of a block spilling into its neighbour after a left shift by the carry's bit 0.
    ShiftLeftByCarryPos0MsgNext,
    /// The message, zeroed when the carry's bit 0 is set.
    IfPos0TrueZeroed,
    /// The message, zeroed when the carry's bit 0 is clear.
    IfPos0FalseZeroed,
    /// The message, zeroed when the carry's bit 1 is set.
    IfPos1TrueZeroed,
    /// The message, zeroed when the carry's bit 1 is clear.
    IfPos1FalseZeroed,
}

/// Floor of the base-2 logarithm (zero below 2).
pub open spec fn log2(x: nat) -> nat
    decreases x,
{
    if x < 2 {
        0
    } else {
        1 + log2(x / 2)
    }
}

/// `2^log2(x)` does not exceed `x`, and the next power does.
pub proof fn lemma_log2_bounds(x: nat)
    requires
        x >= 1,
    ensures
        pow2(log2(x)) <= x < pow2(log2(x) + 1),
    decreases x,
{
    vstd::arithmetic::power2::lemma_pow2_unfold(log2(x) + 1);
    if x >= 2 {
        lemma_log2_bounds(x / 2);
        vstd::arithmetic::power2::lemma_pow2_unfold(log2(x));
    } else {
        vstd::arithmetic::power2::lemma2_to64();
    }
}

/// The block whose content lands at position `i` when blocks move by `stride`: `None` when
/// zeros are shifted in.
pub open spec fn spec_swap_source(kind: ShiftRotKind, i: int, stride: int, n: int) -> Option<int> {
    match kind {
        ShiftRotKind::ShiftRight => if i + stride < n { Some(i + stride) } else { None },
        ShiftRotKind::ShiftLeft => if i >= stride { Some(i - stride) } else { None },
        ShiftRotKind::RotateRight => Some((i + stride) % n),
        ShiftRotKind::RotateLeft => Some((i + n - stride) % n),
    }
}

/// Returns the block whose content lands at position `i` of `blk_w` blocks when they move by
/// `stride` positions: `None` when the position is filled with zeros.
pub fn swap_source(kind: ShiftRotKind, i: usize, stride: usize, blk_w: usize) -> (r: Option<usize>)
    requires
        i < blk_w,
        stride <= blk_w,
        blk_w + blk_w <= usize::MAX,
    ensures
        r matches Some(j) ==> j < blk_w,
        match r {
            Some(j) => spec_swap_source(kind, i as int, stride as int, blk_w as int) == Some(j as int),
            None => spec_swap_source(kind, i as int, stride as int, blk_w as int) is None,
        },
{
    match kind {
        ShiftRotKind::ShiftRight => if i + stride < blk_w { Some(i + stride) } else { None },
        ShiftRotKind::ShiftLeft => if i >= stride { Some(i - stride) } else { None },
        ShiftRotKind::RotateRight => Some((i + stride) % blk_w),
        ShiftRotKind::RotateLeft => Some((i + blk_w - stride) % blk_w),
    }
}

/// Returns the neighbour whose spilled bits merge into block `i` after the intra-block shift.
pub fn merge_neighbor(kind: ShiftRotKind, i: usize, blk_w: usize) -> (r: Option<usize>)
    requires
        i < blk_w,
        blk_w + blk_w <= usize::MAX,
    ensures
        r matches Some(j) ==> j < blk_w,
        match r {
            Some(j) => spec_swap_source(kind, i as int, 1, blk_w as int) == Some(j as int),
            None => spec_swap_source(kind, i as int, 1, blk_w as int) is None,
        },
{
    swap_source(kind, i, 1, blk_w)
}

/// Returns the lookup tables of the intra-block shift: the part of a block staying in place
/// and the part spilling into its neighbour.
pub fn shiftrot_inner_luts(kind: ShiftRotKind) -> (r: (Lut1Def, Lut1Def))
    ensures
        (kind == ShiftRotKind::ShiftRight || kind == ShiftRotKind::RotateRight) ==> r
            == (Lut1Def::ShiftRightByCarryPos0Msg, Lut1Def::ShiftRightByCarryPos0MsgNext),
        (kind == ShiftRotKind::ShiftLeft || kind == ShiftRotKind::RotateLeft) ==> r
            == (Lut1Def::ShiftLeftByCarryPos0Msg, Lut1Def::ShiftLeftByCarryPos0MsgNext),
{
    match kind {
        ShiftRotKind::ShiftRight | ShiftRotKind::RotateRight => (
            Lut1Def::ShiftRightByCarryPos0Msg,
            Lut1Def::ShiftRightByCarryPos0MsgNext,
        ),
        ShiftRotKind::ShiftLeft | ShiftRotKind::RotateLeft => (
            Lut1Def::ShiftLeftByCarryPos0Msg,
            Lut1Def::ShiftLeftByCarryPos0MsgNext,
        ),
    }
}

/// Returns the lookup tables of a conditional block swap testing `cond_pos`: the one keeping
/// the original block when the bit is clear, and the one keeping the swapped block when it is
/// set.
pub fn block_swap_luts(cond_pos: CondPos) -> (r: (Lut1Def, Lut1Def))
    ensures
        cond_pos == CondPos::Pos0 ==> r == (Lut1Def::IfPos0TrueZeroed, Lut1Def::IfPos0FalseZeroed),
        cond_pos == CondPos::Pos1 ==> r == (Lut1Def::IfPos1TrueZeroed, Lut1Def::IfPos1FalseZeroed),
{
    match cond_pos {
        CondPos::Pos0 => (Lut1Def::IfPos0TrueZeroed, Lut1Def::IfPos0FalseZeroed),
        CondPos::Pos1 => (Lut1Def::IfPos1TrueZeroed, Lut1Def::IfPos1FalseZeroed),
    }
}

/// One butterfly stage: blocks move by `stride` when the tested amount bit is set.
pub struct SwapStage {
    /// Distance, in blocks, the stage moves blocks by.
    pub stride: usize,
    /// The amount block holding the tested bit.
    pub cond_block: usize,
    /// The tested bit within that block.
    pub cond_pos: CondPos,
    /// For each position, the block moved there when the bit is set (`None`: zeros).
    pub sources: Vec<Option<usize>>,
}

/// The complete wiring of the shifter for one kind and width.
pub struct ShiftRotPlan {
    /// For each block, the neighbour whose spilled bits it receives.
    pub merge: Vec<Option<usize>>,
    /// The butterfly stages, in application order.
    pub stages: Vec<SwapStage>,
}

/// `sources` is the source table of a stage of the given stride.
pub open spec fn sources_for(kind: ShiftRotKind, stride: int, n: int, sources: Seq<Option<usize>>) -> bool {
    &&& sources.len() == n
    &&& forall|i: int| 0 <= i < n ==> match #[trigger] sources[i] {
        Some(j) => spec_swap_source(kind, i, stride, n) == Some(j as int),
        None => spec_swap_source(kind, i, stride, n) is None,
    }
}

/// Number of swap stages for `blk_w` blocks: one per amount bit above bit 0 addressing a block
/// distance below the block count.
pub open spec fn spec_num_swap_stages(blk_w: nat) -> nat {
    if log2(2 * blk_w) >= 1 { (log2(2 * blk_w) - 1) as nat } else { 0 }
}

impl ShiftRotPlan {
    /// The plan is the wiring of `kind` over `n` blocks of `msg_w` message bits.
    pub open spec fn describes(&self, kind: ShiftRotKind, n: nat, msg_w: nat) -> bool {
        &&& sources_for(kind, 1, n as int, self.merge@)
        &&& self.stages@.len() == spec_num_swap_stages(n)
        &&& forall|s: int| 0 <= s < self.stages@.len() ==> {
            let st = #[trigger] self.stages@[s];
            &&& st.stride == pow2(s as nat)
            &&& st.cond_block == (s + 1) / (msg_w as int)
            &&& st.cond_pos == if (s + 1) % 2 == 1 { CondPos::Pos1 } else { CondPos::Pos0 }
            &&& sources_for(kind, st.stride as int, n as int, st.sources@)
        }
    }
}

fn source_table(kind: ShiftRotKind, stride: usize, blk_w: usize) -> (r: Vec<Option<usize>>)
    requires
        stride <= blk_w,
        blk_w + blk_w <= usize::MAX,
    ensures
        sources_for(kind, stride as int, blk_w as int, r@),
{
    let mut r: Vec<Option<usize>> = Vec::new();
    let mut i: usize = 0;
    while i < blk_w
        invariant
            stride <= blk_w,
            blk_w + blk_w <= usize::MAX,
            i <= blk_w,
            r@.len() == i,
            forall|k: int| 0 <= k < i ==> match #[trigger] r@[k] {
                Some(j) => spec_swap_source(kind, k, stride as int, blk_w as int) == Some(j as int),
                None => spec_swap_source(kind, k, stride as int, blk_w as int) is None,
            },
        decreases blk_w - i,
    {
        r.push(swap_source(kind, i, stride, blk_w));
        i = i + 1;
    }
    r
}

/// Returns the floor of the base-2 logarithm of `x`.
pub fn ilog2(x: usize) -> (r: u32)
    requires
        x >= 1,
    ensures
        r == log2(x as nat),
{
    proof {
        lemma_log2_bounds(x as nat);
        vstd::arithmetic::power2::lemma2_to64();
        if log2(x as nat) > 64 {
            vstd::arithmetic::power2::lemma_pow2_strictly_increases(64, log2(x as nat));
        }
    }
    let mut y = x;
    let mut r: u32 = 0;
    while y >= 2
        invariant
            y >= 1,
            r + log2(y as nat) == log2(x as nat),
            log2(x as nat) <= 64,
        decreases y,
    {
        proof {
            assert(log2(y as nat) == 1 + log2((y / 2) as nat));
        }
        y = y / 2;
        r = r + 1;
    }
    r
}

/// Computes the wiring of the shifter for `blk_w` blocks of `msg_w` message bits.
///
/// Stage `s` (from 0) moves blocks by `2^s` and tests bit `s + 1` of the amount, held by the
/// amount block `(s + 1) / msg_w` at carry position `(s + 1) % 2`.
pub fn shiftrot_plan(kind: ShiftRotKind, blk_w: usize, msg_w: usize) -> (r: ShiftRotPlan)
    requires
        1 <= blk_w,
        1 <= msg_w,
        blk_w + blk_w <= usize::MAX,
    ensures
        r.describes(kind, blk_w as nat, msg_w as nat),
{
    let merge = source_table(kind, 1, blk_w);
    let num_stages = ilog2(2 * blk_w) as usize;
    proof {
        lemma_log2_bounds((2 * blk_w) as nat);
        vstd::arithmetic::power2::lemma_pow2_unfold(log2((2 * blk_w) as nat));
    }
    let mut stages: Vec<SwapStage> = Vec::new();
    let mut stg: usize = 1;
    let mut stride: usize = 1;
    proof {
        vstd::arithmetic::power2::lemma2_to64();
    }
    while stg < num_stages
        invariant
            1 <= blk_w,
            1 <= msg_w,
            blk_w + blk_w <= usize::MAX,
            num_stages == log2((2 * blk_w) as nat),
            pow2(num_stages as nat) <= 2 * blk_w,
            1 <= stg,
            num_stages >= 1 ==> stg <= num_stages,
            stages@.len() == stg - 1,
            stride == pow2((stg - 1) as nat),
            forall|s: int| 0 <= s < stages@.len() ==> {
                let st = #[trigger] stages@[s];
                &&& st.stride == pow2(s as nat)
                &&& st.cond_block == (s + 1) / (msg_w as int)
                &&& st.cond_pos == if (s + 1) % 2 == 1 { CondPos::Pos1 } else { CondPos::Pos0 }
                &&& sources_for(kind, st.stride as int, blk_w as int, st.sources@)
            },
        decreases num_stages - stg,
    {
        proof {
            // stride = 2^(stg-1) and 2^(stg+1) <= 2^num_stages <= 2 * blk_w.
            vstd::arithmetic::power2::lemma_pow2_adds((stg - 1) as nat, 2);
            if stg + 1 < num_stages {
                vstd::arithmetic::power2::lemma_pow2_strictly_increases((stg + 1) as nat, num_stages as nat);
            }
            vstd::arithmetic::power2::lemma2_to64();
            assert(pow2(2) == 4);
            assert(stride * 4 <= 2 * blk_w);
        }
        let cond_block = stg / msg_w;
        let cond_pos = if stg % 2 == 1 { CondPos::Pos1 } else { CondPos::Pos0 };
        let sources = source_table(kind, stride, blk_w);
        stages.push(SwapStage { stride, cond_block, cond_pos, sources });
        proof {
            vstd::arithmetic::power2::lemma_pow2_unfold(stg as nat);
        }
        stg = stg + 1;
        stride = stride * 2;
    }
    proof {
        assert(stages@.len() == spec_num_swap_stages(blk_w as nat));
    }
    ShiftRotPlan { merge, stages }
}

/// One swap stage on block values: when `bit` is set, each position receives the block its
/// source names, or `zero` when zeros are shifted in; otherwise blocks stay in place.
pub open spec fn apply_stage<B>(prev: Seq<B>, kind: ShiftRotKind, stride: int, bit: bool, zero: B) -> Seq<B> {
    Seq::new(
        prev.len(),
        |i: int|
            if bit {
                match spec_swap_source(kind, i, stride, prev.len() as int) {
                    Some(j) => prev[j],
                    None => zero,
                }
            } else {
                prev[i]
            },
    )
}

/// Successive swap stages of the given strides, each enabled by its bit.
pub open spec fn apply_stages<B>(orig: Seq<B>, kind: ShiftRotKind, strides: Seq<int>, bits: Seq<bool>, zero: B) -> Seq<B>
    decreases strides.len(),
{
    if strides.len() == 0 {
        orig
    } else {
        apply_stage(
            apply_stages(orig, kind, strides.drop_last(), bits.drop_last(), zero),
            kind,
            strides.last(),
            bits[strides.len() - 1],
            zero,
        )
    }
}

/// Total distance moved by the enabled stages.
pub open spec fn shift_amount(strides: Seq<int>, bits: Seq<bool>) -> int
    decreases strides.len(),
{
    if strides.len() == 0 {
        0
    } else {
        shift_amount(strides.drop_last(), bits.drop_last()) + if bits[strides.len() - 1] {
            strides.last()
        } else {
            0
        }
    }
}

/// The blocks of `orig` shifted or rotated by `k` block positions, zeros filling shifts.
pub open spec fn block_shift<B>(orig: Seq<B>, kind: ShiftRotKind, k: int, zero: B) -> Seq<B> {
    let n = orig.len() as int;
    Seq::new(
        orig.len(),
        |i: int|
            match kind {
                ShiftRotKind::ShiftRight => if i + k < n { orig[i + k] } else { zero },
                ShiftRotKind::ShiftLeft => if i >= k { orig[i - k] } else { zero },
                ShiftRotKind::RotateRight => orig[(i + k) % n],
                ShiftRotKind::RotateLeft => orig[(i - k) % n],
            },
    )
}

/// The value of the bits, least significant first.
pub open spec fn binary_value(bits: Seq<bool>) -> int
    decreases bits.len(),
{
    if bits.len() == 0 {
        0
    } else {
        binary_value(bits.drop_last()) + if bits.last() { pow2((bits.len() - 1) as nat) as int } else { 0 }
    }
}

/// A stage applied after a shift by `k` yields a shift by `k` plus its stride when enabled.
pub proof fn lemma_stage_composes<B>(orig: Seq<B>, kind: ShiftRotKind, k: int, stride: int, bit: bool, zero: B)
    requires
        orig.len() >= 1,
        k >= 0,
        0 <= stride <= orig.len(),
    ensures
        apply_stage(block_shift(orig, kind, k, zero), kind, stride, bit, zero)
            == block_shift(orig, kind, k + if bit { stride } else { 0 }, zero),
{
    let n = orig.len() as int;
    let prev = block_shift(orig, kind, k, zero);
    let lhs = apply_stage(prev, kind, stride, bit, zero);
    let rhs = block_shift(orig, kind, k + if bit { stride } else { 0 }, zero);
    assert forall|i: int| 0 <= i < n implies #[trigger] lhs[i] == rhs[i] by {
        if bit {
            match kind {
                ShiftRotKind::RotateRight => {
                    let x = i + stride;
                    vstd::arithmetic::div_mod::lemma_mod_bound(x, n);
                    vstd::arithmetic::div_mod::lemma_add_mod_noop_right(x % n, k, n);
                    vstd::arithmetic::div_mod::lemma_add_mod_noop(x, k, n);
                    vstd::arithmetic::div_mod::lemma_mod_twice(x, n);
                    assert((x % n + k) % n == (i + (k + stride)) % n);
                },
                ShiftRotKind::RotateLeft => {
                    let x = i + n - stride;
                    vstd::arithmetic::div_mod::lemma_mod_bound(x, n);
                    vstd::arithmetic::div_mod::lemma_sub_mod_noop_right(x % n, k, n);
                    vstd::arithmetic::div_mod::lemma_sub_mod_noop(x, k, n);
                    vstd::arithmetic::div_mod::lemma_mod_twice(x, n);
                    vstd::arithmetic::div_mod::lemma_mod_add_multiples_vanish(i - (k + stride), n);
                    assert(x - k == n + (i - (k + stride)));
                    assert((x % n - k) % n == (i - (k + stride)) % n);
                },
                _ => {},
            }
        }
    }
    assert(lhs =~= rhs);
}

/// Composing swap stages moves blocks by the sum of the enabled strides.
pub proof fn lemma_stages_compose<B>(orig: Seq<B>, kind: ShiftRotKind, strides: Seq<int>, bits: Seq<bool>, zero: B)
    requires
        orig.len() >= 1,
        bits.len() == strides.len(),
        forall|s: int| 0 <= s < strides.len() ==> 0 <= #[trigger] strides[s] <= orig.len(),
    ensures
        apply_stages(orig, kind, strides, bits, zero) == block_shift(orig, kind, shift_amount(strides, bits), zero),
        shift_amount(strides, bits) >= 0,
    decreases strides.len(),
{
    if strides.len() == 0 {
        assert(block_shift(orig, kind, 0, zero) =~= orig) by {
            assert forall|i: int| 0 <= i < orig.len() implies #[trigger] block_shift(orig, kind, 0, zero)[i] == orig[i] by {
                vstd::arithmetic::div_mod::lemma_small_mod(i as nat, orig.len());
            }
        }
    } else {
        let pre = strides.drop_last();
        assert forall|s: int| 0 <= s < pre.len() implies 0 <= #[trigger] pre[s] <= orig.len() by {
            assert(pre[s] == strides[s]);
        }
        lemma_stages_compose(orig, kind, pre, bits.drop_last(), zero);
        let k = shift_amount(pre, bits.drop_last());
        assert(strides.last() == strides[strides.len() - 1]);
        lemma_stage_composes(orig, kind, k, strides.last(), bits[strides.len() - 1], zero);
    }
}

/// Strides doubling from one add up the enabled bits as a binary number.
pub proof fn lemma_binary_strides(strides: Seq<int>, bits: Seq<bool>)
    requires
        bits.len() == strides.len(),
        forall|s: int| 0 <= s < strides.len() ==> #[trigger] strides[s] == pow2(s as nat),
    ensures
        shift_amount(strides, bits) == binary_value(bits),
    decreases strides.len(),
{
    if strides.len() > 0 {
        let pre = strides.drop_last();
        assert forall|s: int| 0 <= s < pre.len() implies #[trigger] pre[s] == pow2(s as nat) by {
            assert(pre[s] == strides[s]);
        }
        lemma_binary_strides(pre, bits.drop_last());
        assert(bits[strides.len() - 1] == bits.last());
        assert(strides.last() == strides[strides.len() - 1]);
    }
}

impl ShiftRotPlan {
    /// The strides of the swap stages, in application order.
    pub open spec fn strides(&self) -> Seq<int> {
        self.stages@.map_values(|st: SwapStage| st.stride as int)
    }
}

/// The swap stages of the shifter move the blocks by the binary value of the amount bits they
/// test: applied to blocks `orig` with stage `s` enabled by `bits[s]`, they shift or rotate
/// `orig` by `sum(bits[s] * 2^s)` block positions, zeros filling shifts.
pub proof fn lemma_plan_shifts_blocks<B>(
    plan: &ShiftRotPlan,
    kind: ShiftRotKind,
    msg_w: nat,
    orig: Seq<B>,
    bits: Seq<bool>,
    zero: B,
)
    requires
        orig.len() >= 1,
        plan.describes(kind, orig.len(), msg_w),
        bits.len() == plan.stages@.len(),
    ensures
        apply_stages(orig, kind, plan.strides(), bits, zero) == block_shift(orig, kind, binary_value(bits), zero),
{
    let n = orig.len();
    let strides = plan.strides();
    lemma_log2_bounds(2 * n);
    assert forall|s: int| 0 <= s < strides.len() implies 0 <= #[trigger] strides[s] <= n by {
        assert(plan.stages@[s].stride == pow2(s as nat));
        vstd::arithmetic::power2::lemma_pow2_adds(s as nat, 1);
        vstd::arithmetic::power2::lemma2_to64();
        if s + 1 < log2(2 * n) {
            vstd::arithmetic::power2::lemma_pow2_strictly_increases((s + 1) as nat, log2(2 * n));
        }
        vstd::arithmetic::power2::lemma_pow2_pos(s as nat);
    }
    assert forall|s: int| 0 <= s < strides.len() implies #[trigger] strides[s] == pow2(s as nat) by {
        assert(plan.stages@[s].stride == pow2(s as nat));
    }
    lemma_stages_compose(orig, kind, strides, bits, zero);
    lemma_binary_strides(strides, bits);
}

} // verus!
