//! Placement of operations and values across the boards of a partitioned multi-HPU program.
use vstd::prelude::*;
use crate::ir::DialectTypeSystem;
use crate::text::{decimal, push_decimal};

verus! {

/// Identifies a single HPU board within a partitioned multi-HPU program.
#[derive(Debug, Clone, Copy, PartialEq, Eq, PartialOrd, Ord, Hash, Structural)]
pub struct HpuId(pub u8);

/// Identifies a single inter-HPU transfer, pairing its two split halves.
///
/// The outgoing half on the source board and the incoming half on the destination board that
/// implement one transfer carry the same `TransferId`, and it doubles as the handshake flag
/// exchanged between the boards at runtime.
#[derive(Debug, Clone, Copy, PartialEq, Eq, PartialOrd, Ord, Hash, Structural)]
pub struct TransferId(pub u8);

impl HpuId {
    /// The display form of the board identifier: `HPU_` followed by its number.
    pub open spec fn spec_display(&self) -> Seq<char> {
        "HPU_"@ + decimal(self.0 as nat)
    }

    /// Returns the display form of the board identifier, such as `HPU_3`.
    pub fn dump_to_string(&self) -> (r: String)
        ensures
            r@ == self.spec_display(),
    {
        let mut s = String::from_str("HPU_");
        proof {
            reveal_strlit("HPU_");
        }
        push_decimal(&mut s, self.0 as u64);
        s
    }
}

impl TransferId {
    /// The display form of the transfer identifier: `#!` followed by its number.
    pub open spec fn spec_display(&self) -> Seq<char> {
        "#!"@ + decimal(self.0 as nat)
    }

    /// Returns the display form of the transfer identifier, such as `#!7`.
    pub fn dump_to_string(&self) -> (r: String)
        ensures
            r@ == self.spec_display(),
    {
        let mut s = String::from_str("#!");
        proof {
            reveal_strlit("#!");
        }
        push_decimal(&mut s, self.0 as u64);
        s
    }
}

/// Placement of a value across the HPUs of a partitioned program.
///
/// An operation either lives on a single board (`OnHpu`), on two boards when it is a transfer
/// (`Transfer`), or is replicated on a set of boards (`Shared`).
#[derive(Debug, Clone, PartialEq, Eq)]
pub enum HpuLocality {
    OnHpu(HpuId),
    Transfer { from: HpuId, to: HpuId },
    Shared(Vec<HpuId>),
}

impl HpuLocality {
    /// Whether this locality places the value on the HPU `hid`.
    pub open spec fn spec_is_on(&self, hid: HpuId) -> bool {
        match self {
            HpuLocality::OnHpu(h) => *h == hid,
            HpuLocality::Transfer { from, to } => *from == hid || *to == hid,
            HpuLocality::Shared(set) => set@.contains(hid),
        }
    }

    /// Returns whether this locality places the value on the HPU `hid`: true when the value
    /// lives on, is being transferred to or from, or is shared with `hid`.
    pub fn is_on(&self, hid: &HpuId) -> (r: bool)
        ensures
            r == self.spec_is_on(*hid),
    {
        match self {
            HpuLocality::OnHpu(h) => h.0 == hid.0,
            HpuLocality::Transfer { from, to } => from.0 == hid.0 || to.0 == hid.0,
            HpuLocality::Shared(set) => {
                let mut k: usize = 0;
                while k < set.len()
                    invariant
                        k <= set@.len(),
                        self.spec_is_on(*hid) == set@.contains(*hid),
                        forall|j: int| 0 <= j < k ==> set@[j] != *hid,
                    decreases set@.len() - k,
                {
                    if set[k].0 == hid.0 {
                        assert(set@[k as int] == *hid);
                        return true;
                    }
                    k = k + 1;
                }
                false
            },
        }
    }
}

/// A locality is on exactly its boards: a single board, the two ends of a transfer, or every
/// board listed by a shared locality and no other.
pub proof fn lemma_is_on_boards(loc: HpuLocality, hid: HpuId)
    ensures
        loc matches HpuLocality::OnHpu(h) ==> (loc.spec_is_on(hid) <==> h == hid),
        loc matches HpuLocality::Transfer { from, to } ==> (loc.spec_is_on(hid) <==> (from == hid || to == hid)),
        loc matches HpuLocality::Shared(set) ==> (loc.spec_is_on(hid) <==> exists|j: int| 0 <= j < set@.len() && set@[j] == hid),
        loc matches HpuLocality::Shared(set) ==> forall|j: int| 0 <= j < set@.len() ==> loc.spec_is_on(#[trigger] set@[j]),
{
    if let HpuLocality::Shared(set) = loc {
        assert forall|j: int| 0 <= j < set@.len() implies loc.spec_is_on(#[trigger] set@[j]) by {
            assert(set@.contains(set@[j]));
        }
    }
}

/// Type system for the HPU dialect.
///
/// Models the three storage classes visible at the HPU register level: ciphertext registers,
/// plaintext immediates, and heap-spilled ciphertexts.
#[derive(Debug, Clone, Copy, PartialEq, Eq, Hash, Structural)]
pub enum HpuTypeSystem {
    /// Ciphertext block held in a virtual register.
    CtRegister,
    /// Plaintext scalar loaded from an input slot or inlined as a constant.
    PtImmediate,
    /// Ciphertext block spilled to the heap.
    CtHeap,
}

impl HpuTypeSystem {
    /// The variant's name.
    pub open spec fn spec_name(&self) -> Seq<char> {
        match self {
            HpuTypeSystem::CtRegister => "CtRegister"@,
            HpuTypeSystem::PtImmediate => "PtImmediate"@,
            HpuTypeSystem::CtHeap => "CtHeap"@,
        }
    }

    /// Returns the variant's name.
    pub fn name(&self) -> (r: &'static str)
        ensures
            r@ == self.spec_name(),
    {
        match self {
            HpuTypeSystem::CtRegister => "CtRegister",
            HpuTypeSystem::PtImmediate => "PtImmediate",
            HpuTypeSystem::CtHeap => "CtHeap",
        }
    }
}

impl DialectTypeSystem for HpuTypeSystem {
    fn same_type(&self, other: &Self) -> (r: bool) {
        *self == *other
    }
}

/// Type system for the layout dialect.
///
/// Single-typed: every edge carries the sole `Value` variant. Layout IRs only encode the shape
/// of the dataflow to draw, so no further type distinction is needed.
#[derive(Debug, Clone, Copy, PartialEq, Eq, Hash, Structural)]
pub enum LayoutTypeSystem {
    Value,
}

impl LayoutTypeSystem {
    /// The variant's name.
    pub open spec fn spec_name(&self) -> Seq<char> {
        "Value"@
    }

    /// Returns the variant's name.
    pub fn name(&self) -> (r: &'static str)
        ensures
            r@ == self.spec_name(),
    {
        "Value"
    }
}

impl DialectTypeSystem for LayoutTypeSystem {
    fn same_type(&self, other: &Self) -> (r: bool) {
        *self == *other
    }
}

} // verus!
