//! Typed identifiers of operations and values within an IR.
use vstd::prelude::*;
use crate::text::{decimal, push_char, push_decimal, decimal_padded, zero_padded};

verus! {

/// Raw representation of an [`OpId`].
pub type OpIdRaw = u32;
/// Raw representation of a [`ValId`].
pub type ValIdRaw = u32;
/// Raw representation of a [`ValueNumber`].
pub type ValueNumberRaw = u32;

/// Identifier for operations within an IR.
#[derive(Debug, Copy, Clone, PartialEq, Eq, PartialOrd, Ord, Hash, Structural)]
pub struct OpId(pub u32);

/// Identifier for values within an IR.
#[derive(Debug, Copy, Clone, PartialEq, Eq, PartialOrd, Ord, Hash, Structural)]
pub struct ValId(pub u32);

/// Identifier used in value numbering for optimization passes.
#[derive(Debug, Copy, Clone, PartialEq, Eq, PartialOrd, Ord, Hash, Structural)]
pub struct ValueNumber(pub u32);

/// Types that can provide an [`OpId`].
pub trait AsOpId {
    /// The identifier this value stands for.
    spec fn spec_op_id(&self) -> OpId;

    /// Returns the underlying operation identifier.
    fn op_id(&self) -> (r: OpId)
        ensures
            r == self.spec_op_id(),
    ;
}

/// Types that can provide a [`ValId`].
pub trait AsValId {
    /// The identifier this value stands for.
    spec fn spec_val_id(&self) -> ValId;

    /// Returns the underlying value identifier.
    fn val_id(&self) -> (r: ValId)
        ensures
            r == self.spec_val_id(),
    ;
}

impl AsOpId for OpId {
    open spec fn spec_op_id(&self) -> OpId {
        *self
    }

    fn op_id(&self) -> (r: OpId) {
        *self
    }
}

impl AsValId for ValId {
    open spec fn spec_val_id(&self) -> ValId {
        *self
    }

    fn val_id(&self) -> (r: ValId) {
        *self
    }
}

impl OpId {
    /// Index of this operation in its IR's operation store.
    pub open spec fn index(self) -> int {
        self.0 as int
    }

    /// Returns the identifier `rhs` positions further.
    pub fn plus(self, rhs: u32) -> (r: OpId)
        requires
            self.0 + rhs <= u32::MAX,
        ensures
            r.0 == self.0 + rhs,
    {
        OpId(self.0 + rhs)
    }

    /// Returns the identifier `rhs` positions earlier.
    pub fn minus(self, rhs: u32) -> (r: OpId)
        requires
            self.0 >= rhs,
        ensures
            r.0 == self.0 - rhs,
    {
        OpId(self.0 - rhs)
    }

    /// Returns the identifiers from `start` (included) to `end` (excluded), in increasing order.
    pub fn range(start: u32, end: u32) -> (r: Vec<OpId>)
        ensures
            r@.len() == if start <= end { end - start } else { 0 },
            forall|i: int| 0 <= i < r@.len() ==> #[trigger] r@[i] == OpId((start + i) as u32),
    {
        let mut r: Vec<OpId> = Vec::new();
        let mut k = start;
        while k < end
            invariant
                start <= end ==> start <= k <= end,
                start > end ==> k == start,
                r@.len() == k - start,
                forall|i: int| 0 <= i < r@.len() ==> #[trigger] r@[i] == OpId((start + i) as u32),
            decreases end - k,
        {
            r.push(OpId(k));
            k = k + 1;
        }
        r
    }

    /// The textual form of an operation identifier: `@` and its number.
    pub open spec fn spec_dump(self) -> Seq<char> {
        seq!['@'] + decimal(self.0 as nat)
    }

    /// The textual form with its number zero-padded to `width` digits.
    pub open spec fn spec_dump_padded(self, width: nat) -> Seq<char> {
        seq!['@'] + zero_padded(decimal(self.0 as nat), width)
    }

    /// Renders the identifier as `@n`.
    pub fn dump_to_string(&self) -> (r: String)
        ensures
            r@ == self.spec_dump(),
    {
        let mut s = String::new();
        push_char(&mut s, '@');
        push_decimal(&mut s, self.0 as u64);
        s
    }

    /// Renders the identifier as `@n`, its number zero-padded to `width` digits.
    pub fn dump_padded(&self, width: usize) -> (r: String)
        ensures
            r@ == self.spec_dump_padded(width as nat),
    {
        let mut s = String::new();
        push_char(&mut s, '@');
        let digits = decimal_padded(self.0 as u64, width);
        s.append(digits.as_str());
        s
    }
}

impl ValId {
    /// Index of this value in its IR's value store.
    pub open spec fn index(self) -> int {
        self.0 as int
    }

    /// Returns the identifier `rhs` positions further.
    pub fn plus(self, rhs: u32) -> (r: ValId)
        requires
            self.0 + rhs <= u32::MAX,
        ensures
            r.0 == self.0 + rhs,
    {
        ValId(self.0 + rhs)
    }

    /// Returns the identifier `rhs` positions earlier.
    pub fn minus(self, rhs: u32) -> (r: ValId)
        requires
            self.0 >= rhs,
        ensures
            r.0 == self.0 - rhs,
    {
        ValId(self.0 - rhs)
    }

    /// Returns the identifiers from `start` (included) to `end` (excluded), in increasing order.
    pub fn range(start: u32, end: u32) -> (r: Vec<ValId>)
        ensures
            r@.len() == if start <= end { end - start } else { 0 },
            forall|i: int| 0 <= i < r@.len() ==> #[trigger] r@[i] == ValId((start + i) as u32),
    {
        let mut r: Vec<ValId> = Vec::new();
        let mut k = start;
        while k < end
            invariant
                start <= end ==> start <= k <= end,
                start > end ==> k == start,
                r@.len() == k - start,
                forall|i: int| 0 <= i < r@.len() ==> #[trigger] r@[i] == ValId((start + i) as u32),
            decreases end - k,
        {
            r.push(ValId(k));
            k = k + 1;
        }
        r
    }

    /// The textual form of a value identifier: `%n`, or `%_n` for an inactive value.
    pub open spec fn spec_dump_as(self, inactive: bool) -> Seq<char> {
        if inactive {
            seq!['%', '_'] + decimal(self.0 as nat)
        } else {
            seq!['%'] + decimal(self.0 as nat)
        }
    }

    /// Renders the identifier as `%n`.
    pub fn dump_to_string(&self) -> (r: String)
        ensures
            r@ == self.spec_dump_as(false),
    {
        self.dump_as(false)
    }

    /// Renders the identifier as `%n`, or as `%_n` when it stands for an inactive value.
    pub fn dump_as(&self, inactive: bool) -> (r: String)
        ensures
            r@ == self.spec_dump_as(inactive),
    {
        let mut s = String::new();
        push_char(&mut s, '%');
        if inactive {
            push_char(&mut s, '_');
        }
        push_decimal(&mut s, self.0 as u64);
        proof {
            if inactive {
                assert(s@ =~= seq!['%', '_'] + decimal(self.0 as nat));
            } else {
                assert(s@ =~= seq!['%'] + decimal(self.0 as nat));
            }
        }
        s
    }
}

impl ValueNumber {
    /// Returns the number `rhs` positions further.
    pub fn plus(self, rhs: u32) -> (r: ValueNumber)
        requires
            self.0 + rhs <= u32::MAX,
        ensures
            r.0 == self.0 + rhs,
    {
        ValueNumber(self.0 + rhs)
    }

    /// Returns the number `rhs` positions earlier.
    pub fn minus(self, rhs: u32) -> (r: ValueNumber)
        requires
            self.0 >= rhs,
        ensures
            r.0 == self.0 - rhs,
    {
        ValueNumber(self.0 - rhs)
    }
}

} // verus!
