//! Integer operations supported by the pipeline, and scheduling options.
use vstd::prelude::*;
use crate::strutil::str_eq;

verus! {

/// Integer operations supported by the pipeline.
#[derive(Clone, Copy, Debug, Hash, PartialEq, Eq, Structural)]
pub enum Iop {
    CmpGt,
    CmpGte,
    CmpLt,
    CmpLte,
    CmpEq,
    CmpNeq,
    IfThenElse,
    IfThenZero,
    /// Wrapping addition of two encrypted integers.
    Add,
    /// Wrapping subtraction of two encrypted integers.
    Sub,
    /// Wrapping multiplication of two encrypted integers (LSB result).
    Mul,
    Ilog2,
    CountZeros,
    CountOnes,
    LeadingZeros,
    LeadingOnes,
    TrailingZeros,
    TrailingOnes,
    /// Unsigned division of two encrypted integers (quotient and remainder).
    Div,
    /// Unsigned remainder of two encrypted integers.
    Mod,
}

/// Direction in which a schedule is built.
#[derive(Debug, Clone, Copy, PartialEq, Eq, Structural)]
pub enum SchedulingDirection {
    Forward,
    Backward,
}

/// Scheduling policy.
#[derive(Debug, Clone, Copy, PartialEq, Eq, Structural)]
pub enum SchedPolicy {
    AsSoonAsPossible,
    AsLateAsPossible,
}

impl Iop {
    /// The operation a mnemonic names.
    pub open spec fn spec_from_name(s: Seq<char>) -> Option<Iop> {
        if s == "ADD"@ {
            Some(Iop::Add)
        } else if s == "SUB"@ {
            Some(Iop::Sub)
        } else if s == "MUL"@ {
            Some(Iop::Mul)
        } else if s == "CMP_GT"@ {
            Some(Iop::CmpGt)
        } else if s == "CMP_GTE"@ {
            Some(Iop::CmpGte)
        } else if s == "CMP_LT"@ {
            Some(Iop::CmpLt)
        } else if s == "CMP_LTE"@ {
            Some(Iop::CmpLte)
        } else if s == "CMP_EQ"@ {
            Some(Iop::CmpEq)
        } else if s == "CMP_NEQ"@ {
            Some(Iop::CmpNeq)
        } else if s == "IF_THEN_ZERO"@ {
            Some(Iop::IfThenZero)
        } else if s == "IF_THEN_ELSE"@ {
            Some(Iop::IfThenElse)
        } else if s == "COUNT0"@ {
            Some(Iop::CountZeros)
        } else if s == "COUNT1"@ {
            Some(Iop::CountOnes)
        } else if s == "ILOG2"@ {
            Some(Iop::Ilog2)
        } else if s == "LEAD0"@ {
            Some(Iop::LeadingZeros)
        } else if s == "LEAD1"@ {
            Some(Iop::LeadingOnes)
        } else if s == "TRAIL0"@ {
            Some(Iop::TrailingZeros)
        } else if s == "TRAIL1"@ {
            Some(Iop::TrailingOnes)
        } else if s == "DIV"@ {
            Some(Iop::Div)
        } else if s == "MOD"@ {
            Some(Iop::Mod)
        } else {
            None
        }
    }

    /// The mnemonic of an operation.
    pub open spec fn spec_mnemonic(&self) -> Seq<char> {
        match self {
            Iop::CmpGt => "CMP_GT"@,
            Iop::CmpGte => "CMP_GTE"@,
            Iop::CmpLt => "CMP_LT"@,
            Iop::CmpLte => "CMP_LTE"@,
            Iop::CmpEq => "CMP_EQ"@,
            Iop::CmpNeq => "CMP_NEQ"@,
            Iop::IfThenElse => "IF_THEN_ELSE"@,
            Iop::IfThenZero => "IF_THEN_ZERO"@,
            Iop::Add => "ADD"@,
            Iop::Sub => "SUB"@,
            Iop::Mul => "MUL"@,
            Iop::Ilog2 => "ILOG2"@,
            Iop::CountZeros => "COUNT0"@,
            Iop::CountOnes => "COUNT1"@,
            Iop::LeadingZeros => "LEAD0"@,
            Iop::LeadingOnes => "LEAD1"@,
            Iop::TrailingZeros => "TRAIL0"@,
            Iop::TrailingOnes => "TRAIL1"@,
            Iop::Div => "DIV"@,
            Iop::Mod => "MOD"@,
        }
    }

    /// The name of the variant, as `Debug` prints it.
    pub open spec fn spec_debug_name(&self) -> Seq<char> {
        match self {
            Iop::CmpGt => "CmpGt"@,
            Iop::CmpGte => "CmpGte"@,
            Iop::CmpLt => "CmpLt"@,
            Iop::CmpLte => "CmpLte"@,
            Iop::CmpEq => "CmpEq"@,
            Iop::CmpNeq => "CmpNeq"@,
            Iop::IfThenElse => "IfThenElse"@,
            Iop::IfThenZero => "IfThenZero"@,
            Iop::Add => "Add"@,
            Iop::Sub => "Sub"@,
            Iop::Mul => "Mul"@,
            Iop::Ilog2 => "Ilog2"@,
            Iop::CountZeros => "CountZeros"@,
            Iop::CountOnes => "CountOnes"@,
            Iop::LeadingZeros => "LeadingZeros"@,
            Iop::LeadingOnes => "LeadingOnes"@,
            Iop::TrailingZeros => "TrailingZeros"@,
            Iop::TrailingOnes => "TrailingOnes"@,
            Iop::Div => "Div"@,
            Iop::Mod => "Mod"@,
        }
    }

    /// The variant name in lowercase.
    pub open spec fn spec_lowercase_name(&self) -> Seq<char> {
        match self {
            Iop::CmpGt => "cmpgt"@,
            Iop::CmpGte => "cmpgte"@,
            Iop::CmpLt => "cmplt"@,
            Iop::CmpLte => "cmplte"@,
            Iop::CmpEq => "cmpeq"@,
            Iop::CmpNeq => "cmpneq"@,
            Iop::IfThenElse => "ifthenelse"@,
            Iop::IfThenZero => "ifthenzero"@,
            Iop::Add => "add"@,
            Iop::Sub => "sub"@,
            Iop::Mul => "mul"@,
            Iop::Ilog2 => "ilog2"@,
            Iop::CountZeros => "countzeros"@,
            Iop::CountOnes => "countones"@,
            Iop::LeadingZeros => "leadingzeros"@,
            Iop::LeadingOnes => "leadingones"@,
            Iop::TrailingZeros => "trailingzeros"@,
            Iop::TrailingOnes => "trailingones"@,
            Iop::Div => "div"@,
            Iop::Mod => "mod"@,
        }
    }

    /// Every operation, in declaration order.
    pub open spec fn spec_all() -> Seq<Iop> {
        seq![Iop::CmpGt, Iop::CmpGte, Iop::CmpLt, Iop::CmpLte, Iop::CmpEq, Iop::CmpNeq, Iop::IfThenElse, Iop::IfThenZero, Iop::Add, Iop::Sub, Iop::Mul, Iop::Ilog2, Iop::CountZeros, Iop::CountOnes, Iop::LeadingZeros, Iop::LeadingOnes, Iop::TrailingZeros, Iop::TrailingOnes, Iop::Div, Iop::Mod]
    }

    /// Returns every operation, in declaration order.
    pub fn all() -> (r: Vec<Iop>)
        ensures
            r@ == Self::spec_all(),
    {
        let r = vec![Iop::CmpGt, Iop::CmpGte, Iop::CmpLt, Iop::CmpLte, Iop::CmpEq, Iop::CmpNeq, Iop::IfThenElse, Iop::IfThenZero, Iop::Add, Iop::Sub, Iop::Mul, Iop::Ilog2, Iop::CountZeros, Iop::CountOnes, Iop::LeadingZeros, Iop::LeadingOnes, Iop::TrailingZeros, Iop::TrailingOnes, Iop::Div, Iop::Mod];
        assert(r@ =~= Self::spec_all());
        r
    }

    /// Returns the operation named by a mnemonic such as `ADD` or `CMP_GT`.
    pub fn from_name(s: &str) -> (r: Option<Iop>)
        ensures
            r == Self::spec_from_name(s@),
    {
        if str_eq(s, "ADD") {
            Some(Iop::Add)
        } else if str_eq(s, "SUB") {
            Some(Iop::Sub)
        } else if str_eq(s, "MUL") {
            Some(Iop::Mul)
        } else if str_eq(s, "CMP_GT") {
            Some(Iop::CmpGt)
        } else if str_eq(s, "CMP_GTE") {
            Some(Iop::CmpGte)
        } else if str_eq(s, "CMP_LT") {
            Some(Iop::CmpLt)
        } else if str_eq(s, "CMP_LTE") {
            Some(Iop::CmpLte)
        } else if str_eq(s, "CMP_EQ") {
            Some(Iop::CmpEq)
        } else if str_eq(s, "CMP_NEQ") {
            Some(Iop::CmpNeq)
        } else if str_eq(s, "IF_THEN_ZERO") {
            Some(Iop::IfThenZero)
        } else if str_eq(s, "IF_THEN_ELSE") {
            Some(Iop::IfThenElse)
        } else if str_eq(s, "COUNT0") {
            Some(Iop::CountZeros)
        } else if str_eq(s, "COUNT1") {
            Some(Iop::CountOnes)
        } else if str_eq(s, "ILOG2") {
            Some(Iop::Ilog2)
        } else if str_eq(s, "LEAD0") {
            Some(Iop::LeadingZeros)
        } else if str_eq(s, "LEAD1") {
            Some(Iop::LeadingOnes)
        } else if str_eq(s, "TRAIL0") {
            Some(Iop::TrailingZeros)
        } else if str_eq(s, "TRAIL1") {
            Some(Iop::TrailingOnes)
        } else if str_eq(s, "DIV") {
            Some(Iop::Div)
        } else if str_eq(s, "MOD") {
            Some(Iop::Mod)
        } else {
            None
        }
    }

    /// Returns the mnemonic of the operation.
    pub fn mnemonic(&self) -> (r: &'static str)
        ensures
            r@ == self.spec_mnemonic(),
    {
        match self {
            Iop::CmpGt => "CMP_GT",
            Iop::CmpGte => "CMP_GTE",
            Iop::CmpLt => "CMP_LT",
            Iop::CmpLte => "CMP_LTE",
            Iop::CmpEq => "CMP_EQ",
            Iop::CmpNeq => "CMP_NEQ",
            Iop::IfThenElse => "IF_THEN_ELSE",
            Iop::IfThenZero => "IF_THEN_ZERO",
            Iop::Add => "ADD",
            Iop::Sub => "SUB",
            Iop::Mul => "MUL",
            Iop::Ilog2 => "ILOG2",
            Iop::CountZeros => "COUNT0",
            Iop::CountOnes => "COUNT1",
            Iop::LeadingZeros => "LEAD0",
            Iop::LeadingOnes => "LEAD1",
            Iop::TrailingZeros => "TRAIL0",
            Iop::TrailingOnes => "TRAIL1",
            Iop::Div => "DIV",
            Iop::Mod => "MOD",
        }
    }

    /// Returns the name of the variant, as `Debug` prints it.
    pub fn debug_name(&self) -> (r: &'static str)
        ensures
            r@ == self.spec_debug_name(),
    {
        match self {
            Iop::CmpGt => "CmpGt",
            Iop::CmpGte => "CmpGte",
            Iop::CmpLt => "CmpLt",
            Iop::CmpLte => "CmpLte",
            Iop::CmpEq => "CmpEq",
            Iop::CmpNeq => "CmpNeq",
            Iop::IfThenElse => "IfThenElse",
            Iop::IfThenZero => "IfThenZero",
            Iop::Add => "Add",
            Iop::Sub => "Sub",
            Iop::Mul => "Mul",
            Iop::Ilog2 => "Ilog2",
            Iop::CountZeros => "CountZeros",
            Iop::CountOnes => "CountOnes",
            Iop::LeadingZeros => "LeadingZeros",
            Iop::LeadingOnes => "LeadingOnes",
            Iop::TrailingZeros => "TrailingZeros",
            Iop::TrailingOnes => "TrailingOnes",
            Iop::Div => "Div",
            Iop::Mod => "Mod",
        }
    }

    /// Returns the variant name in lowercase.
    pub fn lowercase_name(&self) -> (r: &'static str)
        ensures
            r@ == self.spec_lowercase_name(),
    {
        match self {
            Iop::CmpGt => "cmpgt",
            Iop::CmpGte => "cmpgte",
            Iop::CmpLt => "cmplt",
            Iop::CmpLte => "cmplte",
            Iop::CmpEq => "cmpeq",
            Iop::CmpNeq => "cmpneq",
            Iop::IfThenElse => "ifthenelse",
            Iop::IfThenZero => "ifthenzero",
            Iop::Add => "add",
            Iop::Sub => "sub",
            Iop::Mul => "mul",
            Iop::Ilog2 => "ilog2",
            Iop::CountZeros => "countzeros",
            Iop::CountOnes => "countones",
            Iop::LeadingZeros => "leadingzeros",
            Iop::LeadingOnes => "leadingones",
            Iop::TrailingZeros => "trailingzeros",
            Iop::TrailingOnes => "trailingones",
            Iop::Div => "div",
            Iop::Mod => "mod",
        }
    }
}

/// Parsing the mnemonic of an operation gives the operation back.
pub proof fn lemma_mnemonic_roundtrip(iop: Iop)
    ensures
        Iop::spec_from_name(iop.spec_mnemonic()) == Some(iop),
{
    match iop {
        Iop::CmpGt => {
            reveal_strlit("CMP_GT");
            reveal_strlit("ADD");
            assert("CMP_GT"@.len() != "ADD"@.len());
            reveal_strlit("SUB");
            assert("CMP_GT"@.len() != "SUB"@.len());
            reveal_strlit("MUL");
            assert("CMP_GT"@.len() != "MUL"@.len());
        },
        Iop::CmpGte => {
            reveal_strlit("CMP_GTE");
            reveal_strlit("ADD");
            assert("CMP_GTE"@.len() != "ADD"@.len());
            reveal_strlit("SUB");
            assert("CMP_GTE"@.len() != "SUB"@.len());
            reveal_strlit("MUL");
            assert("CMP_GTE"@.len() != "MUL"@.len());
            reveal_strlit("CMP_GT");
            assert("CMP_GTE"@.len() != "CMP_GT"@.len());
        },
        Iop::CmpLt => {
            reveal_strlit("CMP_LT");
            reveal_strlit("ADD");
            assert("CMP_LT"@.len() != "ADD"@.len());
            reveal_strlit("SUB");
            assert("CMP_LT"@.len() != "SUB"@.len());
            reveal_strlit("MUL");
            assert("CMP_LT"@.len() != "MUL"@.len());
            reveal_strlit("CMP_GT");
            assert("CMP_LT"@[4] != "CMP_GT"@[4]);
            reveal_strlit("CMP_GTE");
            assert("CMP_LT"@.len() != "CMP_GTE"@.len());
        },
        Iop::CmpLte => {
            reveal_strlit("CMP_LTE");
            reveal_strlit("ADD");
            assert("CMP_LTE"@.len() != "ADD"@.len());
            reveal_strlit("SUB");
            assert("CMP_LTE"@.len() != "SUB"@.len());
            reveal_strlit("MUL");
            assert("CMP_LTE"@.len() != "MUL"@.len());
            reveal_strlit("CMP_GT");
            assert("CMP_LTE"@.len() != "CMP_GT"@.len());
            reveal_strlit("CMP_GTE");
            assert("CMP_LTE"@[4] != "CMP_GTE"@[4]);
            reveal_strlit("CMP_LT");
            assert("CMP_LTE"@.len() != "CMP_LT"@.len());
        },
        Iop::CmpEq => {
            reveal_strlit("CMP_EQ");
            reveal_strlit("ADD");
            assert("CMP_EQ"@.len() != "ADD"@.len());
            reveal_strlit("SUB");
            assert("CMP_EQ"@.len() != "SUB"@.len());
            reveal_strlit("MUL");
            assert("CMP_EQ"@.len() != "MUL"@.len());
            reveal_strlit("CMP_GT");
            assert("CMP_EQ"@[4] != "CMP_GT"@[4]);
            reveal_strlit("CMP_GTE");
            assert("CMP_EQ"@.len() != "CMP_GTE"@.len());
            reveal_strlit("CMP_LT");
            assert("CMP_EQ"@[4] != "CMP_LT"@[4]);
            reveal_strlit("CMP_LTE");
            assert("CMP_EQ"@.len() != "CMP_LTE"@.len());
        },
        Iop::CmpNeq => {
            reveal_strlit("CMP_NEQ");
            reveal_strlit("ADD");
            assert("CMP_NEQ"@.len() != "ADD"@.len());
            reveal_strlit("SUB");
            assert("CMP_NEQ"@.len() != "SUB"@.len());
            reveal_strlit("MUL");
            assert("CMP_NEQ"@.len() != "MUL"@.len());
            reveal_strlit("CMP_GT");
            assert("CMP_NEQ"@.len() != "CMP_GT"@.len());
            reveal_strlit("CMP_GTE");
            assert("CMP_NEQ"@[4] != "CMP_GTE"@[4]);
            reveal_strlit("CMP_LT");
            assert("CMP_NEQ"@.len() != "CMP_LT"@.len());
            reveal_strlit("CMP_LTE");
            assert("CMP_NEQ"@[4] != "CMP_LTE"@[4]);
            reveal_strlit("CMP_EQ");
            assert("CMP_NEQ"@.len() != "CMP_EQ"@.len());
        },
        Iop::IfThenElse => {
            reveal_strlit("IF_THEN_ELSE");
            reveal_strlit("ADD");
            assert("IF_THEN_ELSE"@.len() != "ADD"@.len());
            reveal_strlit("SUB");
            assert("IF_THEN_ELSE"@.len() != "SUB"@.len());
            reveal_strlit("MUL");
            assert("IF_THEN_ELSE"@.len() != "MUL"@.len());
            reveal_strlit("CMP_GT");
            assert("IF_THEN_ELSE"@.len() != "CMP_GT"@.len());
            reveal_strlit("CMP_GTE");
            assert("IF_THEN_ELSE"@.len() != "CMP_GTE"@.len());
            reveal_strlit("CMP_LT");
            assert("IF_THEN_ELSE"@.len() != "CMP_LT"@.len());
            reveal_strlit("CMP_LTE");
            assert("IF_THEN_ELSE"@.len() != "CMP_LTE"@.len());
            reveal_strlit("CMP_EQ");
            assert("IF_THEN_ELSE"@.len() != "CMP_EQ"@.len());
            reveal_strlit("CMP_NEQ");
            assert("IF_THEN_ELSE"@.len() != "CMP_NEQ"@.len());
            reveal_strlit("IF_THEN_ZERO");
            assert("IF_THEN_ELSE"@[8] != "IF_THEN_ZERO"@[8]);
        },
        Iop::IfThenZero => {
            reveal_strlit("IF_THEN_ZERO");
            reveal_strlit("ADD");
            assert("IF_THEN_ZERO"@.len() != "ADD"@.len());
            reveal_strlit("SUB");
            assert("IF_THEN_ZERO"@.len() != "SUB"@.len());
            reveal_strlit("MUL");
            assert("IF_THEN_ZERO"@.len() != "MUL"@.len());
            reveal_strlit("CMP_GT");
            assert("IF_THEN_ZERO"@.len() != "CMP_GT"@.len());
            reveal_strlit("CMP_GTE");
            assert("IF_THEN_ZERO"@.len() != "CMP_GTE"@.len());
            reveal_strlit("CMP_LT");
            assert("IF_THEN_ZERO"@.len() != "CMP_LT"@.len());
            reveal_strlit("CMP_LTE");
            assert("IF_THEN_ZERO"@.len() != "CMP_LTE"@.len());
            reveal_strlit("CMP_EQ");
            assert("IF_THEN_ZERO"@.len() != "CMP_EQ"@.len());
            reveal_strlit("CMP_NEQ");
            assert("IF_THEN_ZERO"@.len() != "CMP_NEQ"@.len());
        },
        Iop::Add => {
            reveal_strlit("ADD");
        },
        Iop::Sub => {
            reveal_strlit("SUB");
            reveal_strlit("ADD");
            assert("SUB"@[0] != "ADD"@[0]);
        },
        Iop::Mul => {
            reveal_strlit("MUL");
            reveal_strlit("ADD");
            assert("MUL"@[0] != "ADD"@[0]);
            reveal_strlit("SUB");
            assert("MUL"@[0] != "SUB"@[0]);
        },
        Iop::Ilog2 => {
            reveal_strlit("ILOG2");
            reveal_strlit("ADD");
            assert("ILOG2"@.len() != "ADD"@.len());
            reveal_strlit("SUB");
            assert("ILOG2"@.len() != "SUB"@.len());
            reveal_strlit("MUL");
            assert("ILOG2"@.len() != "MUL"@.len());
            reveal_strlit("CMP_GT");
            assert("ILOG2"@.len() != "CMP_GT"@.len());
            reveal_strlit("CMP_GTE");
            assert("ILOG2"@.len() != "CMP_GTE"@.len());
            reveal_strlit("CMP_LT");
            assert("ILOG2"@.len() != "CMP_LT"@.len());
            reveal_strlit("CMP_LTE");
            assert("ILOG2"@.len() != "CMP_LTE"@.len());
            reveal_strlit("CMP_EQ");
            assert("ILOG2"@.len() != "CMP_EQ"@.len());
            reveal_strlit("CMP_NEQ");
            assert("ILOG2"@.len() != "CMP_NEQ"@.len());
            reveal_strlit("IF_THEN_ZERO");
            assert("ILOG2"@.len() != "IF_THEN_ZERO"@.len());
            reveal_strlit("IF_THEN_ELSE");
            assert("ILOG2"@.len() != "IF_THEN_ELSE"@.len());
            reveal_strlit("COUNT0");
            assert("ILOG2"@.len() != "COUNT0"@.len());
            reveal_strlit("COUNT1");
            assert("ILOG2"@.len() != "COUNT1"@.len());
        },
        Iop::CountZeros => {
            reveal_strlit("COUNT0");
            reveal_strlit("ADD");
            assert("COUNT0"@.len() != "ADD"@.len());
            reveal_strlit("SUB");
            assert("COUNT0"@.len() != "SUB"@.len());
            reveal_strlit("MUL");
            assert("COUNT0"@.len() != "MUL"@.len());
            reveal_strlit("CMP_GT");
            assert("COUNT0"@[1] != "CMP_GT"@[1]);
            reveal_strlit("CMP_GTE");
            assert("COUNT0"@.len() != "CMP_GTE"@.len());
            reveal_strlit("CMP_LT");
            assert("COUNT0"@[1] != "CMP_LT"@[1]);
            reveal_strlit("CMP_LTE");
            assert("COUNT0"@.len() != "CMP_LTE"@.len());
            reveal_strlit("CMP_EQ");
            assert("COUNT0"@[1] != "CMP_EQ"@[1]);
            reveal_strlit("CMP_NEQ");
            assert("COUNT0"@.len() != "CMP_NEQ"@.len());
            reveal_strlit("IF_THEN_ZERO");
            assert("COUNT0"@.len() != "IF_THEN_ZERO"@.len());
            reveal_strlit("IF_THEN_ELSE");
            assert("COUNT0"@.len() != "IF_THEN_ELSE"@.len());
        },
        Iop::CountOnes => {
            reveal_strlit("COUNT1");
            reveal_strlit("ADD");
            assert("COUNT1"@.len() != "ADD"@.len());
            reveal_strlit("SUB");
            assert("COUNT1"@.len() != "SUB"@.len());
            reveal_strlit("MUL");
            assert("COUNT1"@.len() != "MUL"@.len());
            reveal_strlit("CMP_GT");
            assert("COUNT1"@[1] != "CMP_GT"@[1]);
            reveal_strlit("CMP_GTE");
            assert("COUNT1"@.len() != "CMP_GTE"@.len());
            reveal_strlit("CMP_LT");
            assert("COUNT1"@[1] != "CMP_LT"@[1]);
            reveal_strlit("CMP_LTE");
            assert("COUNT1"@.len() != "CMP_LTE"@.len());
            reveal_strlit("CMP_EQ");
            assert("COUNT1"@[1] != "CMP_EQ"@[1]);
            reveal_strlit("CMP_NEQ");
            assert("COUNT1"@.len() != "CMP_NEQ"@.len());
            reveal_strlit("IF_THEN_ZERO");
            assert("COUNT1"@.len() != "IF_THEN_ZERO"@.len());
            reveal_strlit("IF_THEN_ELSE");
            assert("COUNT1"@.len() != "IF_THEN_ELSE"@.len());
            reveal_strlit("COUNT0");
            assert("COUNT1"@[5] != "COUNT0"@[5]);
        },
        Iop::LeadingZeros => {
            reveal_strlit("LEAD0");
            reveal_strlit("ADD");
            assert("LEAD0"@.len() != "ADD"@.len());
            reveal_strlit("SUB");
            assert("LEAD0"@.len() != "SUB"@.len());
            reveal_strlit("MUL");
            assert("LEAD0"@.len() != "MUL"@.len());
            reveal_strlit("CMP_GT");
            assert("LEAD0"@.len() != "CMP_GT"@.len());
            reveal_strlit("CMP_GTE");
            assert("LEAD0"@.len() != "CMP_GTE"@.len());
            reveal_strlit("CMP_LT");
            assert("LEAD0"@.len() != "CMP_LT"@.len());
            reveal_strlit("CMP_LTE");
            assert("LEAD0"@.len() != "CMP_LTE"@.len());
            reveal_strlit("CMP_EQ");
            assert("LEAD0"@.len() != "CMP_EQ"@.len());
            reveal_strlit("CMP_NEQ");
            assert("LEAD0"@.len() != "CMP_NEQ"@.len());
            reveal_strlit("IF_THEN_ZERO");
            assert("LEAD0"@.len() != "IF_THEN_ZERO"@.len());
            reveal_strlit("IF_THEN_ELSE");
            assert("LEAD0"@.len() != "IF_THEN_ELSE"@.len());
            reveal_strlit("COUNT0");
            assert("LEAD0"@.len() != "COUNT0"@.len());
            reveal_strlit("COUNT1");
            assert("LEAD0"@.len() != "COUNT1"@.len());
            reveal_strlit("ILOG2");
            assert("LEAD0"@[0] != "ILOG2"@[0]);
        },
        Iop::LeadingOnes => {
            reveal_strlit("LEAD1");
            reveal_strlit("ADD");
            assert("LEAD1"@.len() != "ADD"@.len());
            reveal_strlit("SUB");
            assert("LEAD1"@.len() != "SUB"@.len());
            reveal_strlit("MUL");
            assert("LEAD1"@.len() != "MUL"@.len());
            reveal_strlit("CMP_GT");
            assert("LEAD1"@.len() != "CMP_GT"@.len());
            reveal_strlit("CMP_GTE");
            assert("LEAD1"@.len() != "CMP_GTE"@.len());
            reveal_strlit("CMP_LT");
            assert("LEAD1"@.len() != "CMP_LT"@.len());
            reveal_strlit("CMP_LTE");
            assert("LEAD1"@.len() != "CMP_LTE"@.len());
            reveal_strlit("CMP_EQ");
            assert("LEAD1"@.len() != "CMP_EQ"@.len());
            reveal_strlit("CMP_NEQ");
            assert("LEAD1"@.len() != "CMP_NEQ"@.len());
            reveal_strlit("IF_THEN_ZERO");
            assert("LEAD1"@.len() != "IF_THEN_ZERO"@.len());
            reveal_strlit("IF_THEN_ELSE");
            assert("LEAD1"@.len() != "IF_THEN_ELSE"@.len());
            reveal_strlit("COUNT0");
            assert("LEAD1"@.len() != "COUNT0"@.len());
            reveal_strlit("COUNT1");
            assert("LEAD1"@.len() != "COUNT1"@.len());
            reveal_strlit("ILOG2");
            assert("LEAD1"@[0] != "ILOG2"@[0]);
            reveal_strlit("LEAD0");
            assert("LEAD1"@[4] != "LEAD0"@[4]);
        },
        Iop::TrailingZeros => {
            reveal_strlit("TRAIL0");
            reveal_strlit("ADD");
            assert("TRAIL0"@.len() != "ADD"@.len());
            reveal_strlit("SUB");
            assert("TRAIL0"@.len() != "SUB"@.len());
            reveal_strlit("MUL");
            assert("TRAIL0"@.len() != "MUL"@.len());
            reveal_strlit("CMP_GT");
            assert("TRAIL0"@[0] != "CMP_GT"@[0]);
            reveal_strlit("CMP_GTE");
            assert("TRAIL0"@.len() != "CMP_GTE"@.len());
            reveal_strlit("CMP_LT");
            assert("TRAIL0"@[0] != "CMP_LT"@[0]);
            reveal_strlit("CMP_LTE");
            assert("TRAIL0"@.len() != "CMP_LTE"@.len());
            reveal_strlit("CMP_EQ");
            assert("TRAIL0"@[0] != "CMP_EQ"@[0]);
            reveal_strlit("CMP_NEQ");
            assert("TRAIL0"@.len() != "CMP_NEQ"@.len());
            reveal_strlit("IF_THEN_ZERO");
            assert("TRAIL0"@.len() != "IF_THEN_ZERO"@.len());
            reveal_strlit("IF_THEN_ELSE");
            assert("TRAIL0"@.len() != "IF_THEN_ELSE"@.len());
            reveal_strlit("COUNT0");
            assert("TRAIL0"@[0] != "COUNT0"@[0]);
            reveal_strlit("COUNT1");
            assert("TRAIL0"@[0] != "COUNT1"@[0]);
            reveal_strlit("ILOG2");
            assert("TRAIL0"@.len() != "ILOG2"@.len());
            reveal_strlit("LEAD0");
            assert("TRAIL0"@.len() != "LEAD0"@.len());
            reveal_strlit("LEAD1");
            assert("TRAIL0"@.len() != "LEAD1"@.len());
        },
        Iop::TrailingOnes => {
            reveal_strlit("TRAIL1");
            reveal_strlit("ADD");
            assert("TRAIL1"@.len() != "ADD"@.len());
            reveal_strlit("SUB");
            assert("TRAIL1"@.len() != "SUB"@.len());
            reveal_strlit("MUL");
            assert("TRAIL1"@.len() != "MUL"@.len());
            reveal_strlit("CMP_GT");
            assert("TRAIL1"@[0] != "CMP_GT"@[0]);
            reveal_strlit("CMP_GTE");
            assert("TRAIL1"@.len() != "CMP_GTE"@.len());
            reveal_strlit("CMP_LT");
            assert("TRAIL1"@[0] != "CMP_LT"@[0]);
            reveal_strlit("CMP_LTE");
            assert("TRAIL1"@.len() != "CMP_LTE"@.len());
            reveal_strlit("CMP_EQ");
            assert("TRAIL1"@[0] != "CMP_EQ"@[0]);
            reveal_strlit("CMP_NEQ");
            assert("TRAIL1"@.len() != "CMP_NEQ"@.len());
            reveal_strlit("IF_THEN_ZERO");
            assert("TRAIL1"@.len() != "IF_THEN_ZERO"@.len());
            reveal_strlit("IF_THEN_ELSE");
            assert("TRAIL1"@.len() != "IF_THEN_ELSE"@.len());
            reveal_strlit("COUNT0");
            assert("TRAIL1"@[0] != "COUNT0"@[0]);
            reveal_strlit("COUNT1");
            assert("TRAIL1"@[0] != "COUNT1"@[0]);
            reveal_strlit("ILOG2");
            assert("TRAIL1"@.len() != "ILOG2"@.len());
            reveal_strlit("LEAD0");
            assert("TRAIL1"@.len() != "LEAD0"@.len());
            reveal_strlit("LEAD1");
            assert("TRAIL1"@.len() != "LEAD1"@.len());
            reveal_strlit("TRAIL0");
            assert("TRAIL1"@[5] != "TRAIL0"@[5]);
        },
        Iop::Div => {
            reveal_strlit("DIV");
            reveal_strlit("ADD");
            assert("DIV"@[0] != "ADD"@[0]);
            reveal_strlit("SUB");
            assert("DIV"@[0] != "SUB"@[0]);
            reveal_strlit("MUL");
            assert("DIV"@[0] != "MUL"@[0]);
            reveal_strlit("CMP_GT");
            assert("DIV"@.len() != "CMP_GT"@.len());
            reveal_strlit("CMP_GTE");
            assert("DIV"@.len() != "CMP_GTE"@.len());
            reveal_strlit("CMP_LT");
            assert("DIV"@.len() != "CMP_LT"@.len());
            reveal_strlit("CMP_LTE");
            assert("DIV"@.len() != "CMP_LTE"@.len());
            reveal_strlit("CMP_EQ");
            assert("DIV"@.len() != "CMP_EQ"@.len());
            reveal_strlit("CMP_NEQ");
            assert("DIV"@.len() != "CMP_NEQ"@.len());
            reveal_strlit("IF_THEN_ZERO");
            assert("DIV"@.len() != "IF_THEN_ZERO"@.len());
            reveal_strlit("IF_THEN_ELSE");
            assert("DIV"@.len() != "IF_THEN_ELSE"@.len());
            reveal_strlit("COUNT0");
            assert("DIV"@.len() != "COUNT0"@.len());
            reveal_strlit("COUNT1");
            assert("DIV"@.len() != "COUNT1"@.len());
            reveal_strlit("ILOG2");
            assert("DIV"@.len() != "ILOG2"@.len());
            reveal_strlit("LEAD0");
            assert("DIV"@.len() != "LEAD0"@.len());
            reveal_strlit("LEAD1");
            assert("DIV"@.len() != "LEAD1"@.len());
            reveal_strlit("TRAIL0");
            assert("DIV"@.len() != "TRAIL0"@.len());
            reveal_strlit("TRAIL1");
            assert("DIV"@.len() != "TRAIL1"@.len());
        },
        Iop::Mod => {
            reveal_strlit("MOD");
            reveal_strlit("ADD");
            assert("MOD"@[0] != "ADD"@[0]);
            reveal_strlit("SUB");
            assert("MOD"@[0] != "SUB"@[0]);
            reveal_strlit("MUL");
            assert("MOD"@[1] != "MUL"@[1]);
            reveal_strlit("CMP_GT");
            assert("MOD"@.len() != "CMP_GT"@.len());
            reveal_strlit("CMP_GTE");
            assert("MOD"@.len() != "CMP_GTE"@.len());
            reveal_strlit("CMP_LT");
            assert("MOD"@.len() != "CMP_LT"@.len());
            reveal_strlit("CMP_LTE");
            assert("MOD"@.len() != "CMP_LTE"@.len());
            reveal_strlit("CMP_EQ");
            assert("MOD"@.len() != "CMP_EQ"@.len());
            reveal_strlit("CMP_NEQ");
            assert("MOD"@.len() != "CMP_NEQ"@.len());
            reveal_strlit("IF_THEN_ZERO");
            assert("MOD"@.len() != "IF_THEN_ZERO"@.len());
            reveal_strlit("IF_THEN_ELSE");
            assert("MOD"@.len() != "IF_THEN_ELSE"@.len());
            reveal_strlit("COUNT0");
            assert("MOD"@.len() != "COUNT0"@.len());
            reveal_strlit("COUNT1");
            assert("MOD"@.len() != "COUNT1"@.len());
            reveal_strlit("ILOG2");
            assert("MOD"@.len() != "ILOG2"@.len());
            reveal_strlit("LEAD0");
            assert("MOD"@.len() != "LEAD0"@.len());
            reveal_strlit("LEAD1");
            assert("MOD"@.len() != "LEAD1"@.len());
            reveal_strlit("TRAIL0");
            assert("MOD"@.len() != "TRAIL0"@.len());
            reveal_strlit("TRAIL1");
            assert("MOD"@.len() != "TRAIL1"@.len());
            reveal_strlit("DIV");
            assert("MOD"@[0] != "DIV"@[0]);
        },
    }
}

/// The names of every operation: its mnemonic, which parses back to it, its `Debug` name and its
/// lowercase name.
pub proof fn lemma_name_table()
    ensures
        Iop::spec_from_name("CMP_GT"@) == Some(Iop::CmpGt),
        Iop::CmpGt.spec_mnemonic() == "CMP_GT"@,
        Iop::CmpGt.spec_debug_name() == "CmpGt"@,
        Iop::CmpGt.spec_lowercase_name() == "cmpgt"@,
        Iop::spec_from_name("CMP_GTE"@) == Some(Iop::CmpGte),
        Iop::CmpGte.spec_mnemonic() == "CMP_GTE"@,
        Iop::CmpGte.spec_debug_name() == "CmpGte"@,
        Iop::CmpGte.spec_lowercase_name() == "cmpgte"@,
        Iop::spec_from_name("CMP_LT"@) == Some(Iop::CmpLt),
        Iop::CmpLt.spec_mnemonic() == "CMP_LT"@,
        Iop::CmpLt.spec_debug_name() == "CmpLt"@,
        Iop::CmpLt.spec_lowercase_name() == "cmplt"@,
        Iop::spec_from_name("CMP_LTE"@) == Some(Iop::CmpLte),
        Iop::CmpLte.spec_mnemonic() == "CMP_LTE"@,
        Iop::CmpLte.spec_debug_name() == "CmpLte"@,
        Iop::CmpLte.spec_lowercase_name() == "cmplte"@,
        Iop::spec_from_name("CMP_EQ"@) == Some(Iop::CmpEq),
        Iop::CmpEq.spec_mnemonic() == "CMP_EQ"@,
        Iop::CmpEq.spec_debug_name() == "CmpEq"@,
        Iop::CmpEq.spec_lowercase_name() == "cmpeq"@,
        Iop::spec_from_name("CMP_NEQ"@) == Some(Iop::CmpNeq),
        Iop::CmpNeq.spec_mnemonic() == "CMP_NEQ"@,
        Iop::CmpNeq.spec_debug_name() == "CmpNeq"@,
        Iop::CmpNeq.spec_lowercase_name() == "cmpneq"@,
        Iop::spec_from_name("IF_THEN_ELSE"@) == Some(Iop::IfThenElse),
        Iop::IfThenElse.spec_mnemonic() == "IF_THEN_ELSE"@,
        Iop::IfThenElse.spec_debug_name() == "IfThenElse"@,
        Iop::IfThenElse.spec_lowercase_name() == "ifthenelse"@,
        Iop::spec_from_name("IF_THEN_ZERO"@) == Some(Iop::IfThenZero),
        Iop::IfThenZero.spec_mnemonic() == "IF_THEN_ZERO"@,
        Iop::IfThenZero.spec_debug_name() == "IfThenZero"@,
        Iop::IfThenZero.spec_lowercase_name() == "ifthenzero"@,
        Iop::spec_from_name("ADD"@) == Some(Iop::Add),
        Iop::Add.spec_mnemonic() == "ADD"@,
        Iop::Add.spec_debug_name() == "Add"@,
        Iop::Add.spec_lowercase_name() == "add"@,
        Iop::spec_from_name("SUB"@) == Some(Iop::Sub),
        Iop::Sub.spec_mnemonic() == "SUB"@,
        Iop::Sub.spec_debug_name() == "Sub"@,
        Iop::Sub.spec_lowercase_name() == "sub"@,
        Iop::spec_from_name("MUL"@) == Some(Iop::Mul),
        Iop::Mul.spec_mnemonic() == "MUL"@,
        Iop::Mul.spec_debug_name() == "Mul"@,
        Iop::Mul.spec_lowercase_name() == "mul"@,
        Iop::spec_from_name("ILOG2"@) == Some(Iop::Ilog2),
        Iop::Ilog2.spec_mnemonic() == "ILOG2"@,
        Iop::Ilog2.spec_debug_name() == "Ilog2"@,
        Iop::Ilog2.spec_lowercase_name() == "ilog2"@,
        Iop::spec_from_name("COUNT0"@) == Some(Iop::CountZeros),
        Iop::CountZeros.spec_mnemonic() == "COUNT0"@,
        Iop::CountZeros.spec_debug_name() == "CountZeros"@,
        Iop::CountZeros.spec_lowercase_name() == "countzeros"@,
        Iop::spec_from_name("COUNT1"@) == Some(Iop::CountOnes),
        Iop::CountOnes.spec_mnemonic() == "COUNT1"@,
        Iop::CountOnes.spec_debug_name() == "CountOnes"@,
        Iop::CountOnes.spec_lowercase_name() == "countones"@,
        Iop::spec_from_name("LEAD0"@) == Some(Iop::LeadingZeros),
        Iop::LeadingZeros.spec_mnemonic() == "LEAD0"@,
        Iop::LeadingZeros.spec_debug_name() == "LeadingZeros"@,
        Iop::LeadingZeros.spec_lowercase_name() == "leadingzeros"@,
        Iop::spec_from_name("LEAD1"@) == Some(Iop::LeadingOnes),
        Iop::LeadingOnes.spec_mnemonic() == "LEAD1"@,
        Iop::LeadingOnes.spec_debug_name() == "LeadingOnes"@,
        Iop::LeadingOnes.spec_lowercase_name() == "leadingones"@,
        Iop::spec_from_name("TRAIL0"@) == Some(Iop::TrailingZeros),
        Iop::TrailingZeros.spec_mnemonic() == "TRAIL0"@,
        Iop::TrailingZeros.spec_debug_name() == "TrailingZeros"@,
        Iop::TrailingZeros.spec_lowercase_name() == "trailingzeros"@,
        Iop::spec_from_name("TRAIL1"@) == Some(Iop::TrailingOnes),
        Iop::TrailingOnes.spec_mnemonic() == "TRAIL1"@,
        Iop::TrailingOnes.spec_debug_name() == "TrailingOnes"@,
        Iop::TrailingOnes.spec_lowercase_name() == "trailingones"@,
        Iop::spec_from_name("DIV"@) == Some(Iop::Div),
        Iop::Div.spec_mnemonic() == "DIV"@,
        Iop::Div.spec_debug_name() == "Div"@,
        Iop::Div.spec_lowercase_name() == "div"@,
        Iop::spec_from_name("MOD"@) == Some(Iop::Mod),
        Iop::Mod.spec_mnemonic() == "MOD"@,
        Iop::Mod.spec_debug_name() == "Mod"@,
        Iop::Mod.spec_lowercase_name() == "mod"@,
{
    lemma_mnemonic_roundtrip(Iop::CmpGt);
    lemma_mnemonic_roundtrip(Iop::CmpGte);
    lemma_mnemonic_roundtrip(Iop::CmpLt);
    lemma_mnemonic_roundtrip(Iop::CmpLte);
    lemma_mnemonic_roundtrip(Iop::CmpEq);
    lemma_mnemonic_roundtrip(Iop::CmpNeq);
    lemma_mnemonic_roundtrip(Iop::IfThenElse);
    lemma_mnemonic_roundtrip(Iop::IfThenZero);
    lemma_mnemonic_roundtrip(Iop::Add);
    lemma_mnemonic_roundtrip(Iop::Sub);
    lemma_mnemonic_roundtrip(Iop::Mul);
    lemma_mnemonic_roundtrip(Iop::Ilog2);
    lemma_mnemonic_roundtrip(Iop::CountZeros);
    lemma_mnemonic_roundtrip(Iop::CountOnes);
    lemma_mnemonic_roundtrip(Iop::LeadingZeros);
    lemma_mnemonic_roundtrip(Iop::LeadingOnes);
    lemma_mnemonic_roundtrip(Iop::TrailingZeros);
    lemma_mnemonic_roundtrip(Iop::TrailingOnes);
    lemma_mnemonic_roundtrip(Iop::Div);
    lemma_mnemonic_roundtrip(Iop::Mod);
}

/// Parsing accepts mnemonics only: a name that parses is the mnemonic of the operation it gives.
pub proof fn lemma_from_name_inverts_mnemonic(s: Seq<char>)
    ensures
        Iop::spec_from_name(s) matches Some(iop) ==> iop.spec_mnemonic() == s,
{
}

impl std::str::FromStr for Iop {
    type Err = ();

    fn from_str(s: &str) -> (r: Result<Self, Self::Err>)
        ensures
            r == (match Iop::spec_from_name(s@) {
                Some(iop) => Ok::<Iop, ()>(iop),
                None => Err::<Iop, ()>(()),
            }),
    {
        match Iop::from_name(s) {
            Some(iop) => Ok(iop),
            None => Err(()),
        }
    }
}

} // verus!
