//! Executable instructions of the software VM, and the VM dialect's tags.
use vstd::prelude::*;
use crate::ids::OpIdRaw;
use crate::text::{decimal, push_field};

verus! {

/// Type system for the VM dialect: the two storage classes the software VM exposes.
#[derive(Debug, Clone, PartialEq, Eq, Hash, Structural)]
pub enum VmTypeSystem {
    /// Ciphertext block held in a virtual register.
    CtRegister,
    /// Plaintext scalar loaded from a positional input slot.
    PtImmediate,
}

impl VmTypeSystem {
    /// The variant's name.
    pub open spec fn spec_name(&self) -> Seq<char> {
        match self {
            VmTypeSystem::CtRegister => "CtRegister"@,
            VmTypeSystem::PtImmediate => "PtImmediate"@,
        }
    }

    /// Returns the variant's name.
    pub fn name(&self) -> (r: &'static str)
        ensures
            r@ == self.spec_name(),
    {
        match self {
            VmTypeSystem::CtRegister => "CtRegister",
            VmTypeSystem::PtImmediate => "PtImmediate",
        }
    }
}

/// Dialect tag for the software VM language.
#[derive(Debug, Clone, PartialEq, Eq, Hash, Structural)]
pub struct VmLang;

/// Executable instruction of the software VM.
///
/// `dst`, `src`, `src1`, `src2`, `dst1` and `dst2` are indices into the VM register file;
/// plaintext operands are inlined either as a constant `cst` or as the `(s_id, s_blk)` address
/// of a block of a plaintext input. Every variant carries the `id` of the dialect operation it
/// was lowered from.
#[derive(Debug, Clone, PartialEq, Eq, Hash, Structural)]
#[allow(non_camel_case_types)]
pub enum VmByteCode {
    /// `dst = src1 + src2` — ciphertext addition.
    ADD { id: OpIdRaw, dst: u16, src1: u16, src2: u16 },
    /// `dst = src1 - src2` — ciphertext subtraction.
    SUB { id: OpIdRaw, dst: u16, src1: u16, src2: u16 },
    /// `dst = src1 * cst + src2` — multiply-accumulate.
    MAC { id: OpIdRaw, dst: u16, src1: u16, src2: u16, cst: u8 },
    /// `dst = src + pt` — ciphertext plus the plaintext block `s_blk` of input slot `s_id`.
    ADDS { id: OpIdRaw, dst: u16, src: u16, s_id: u16, s_blk: u8 },
    /// `dst = src - pt` — ciphertext minus the plaintext block `s_blk` of input slot `s_id`.
    SUBS { id: OpIdRaw, dst: u16, src: u16, s_id: u16, s_blk: u8 },
    /// `dst = pt - src` — the plaintext block `s_blk` of input slot `s_id` minus a ciphertext.
    SSUB { id: OpIdRaw, dst: u16, src: u16, s_id: u16, s_blk: u8 },
    /// `dst = src * pt` — ciphertext scaled by the plaintext block `s_blk` of input slot `s_id`.
    MULS { id: OpIdRaw, dst: u16, src: u16, s_id: u16, s_blk: u8 },
    /// `dst = src + cst` — ciphertext plus an inline constant.
    ADDC { id: OpIdRaw, dst: u16, src: u16, cst: u8 },
    /// `dst = src - cst` — ciphertext minus an inline constant.
    SUBC { id: OpIdRaw, dst: u16, src: u16, cst: u8 },
    /// `dst = cst - src` — inline constant minus a ciphertext.
    CSUB { id: OpIdRaw, dst: u16, src: u16, cst: u8 },
    /// `dst = src * cst` — ciphertext scaled by an inline constant.
    MULC { id: OpIdRaw, dst: u16, src: u16, cst: u8 },
    /// Loads the ciphertext block `src_blk` of input slot `src_id` into register `dst`.
    LD { id: OpIdRaw, dst: u16, src_id: u16, src_blk: u8 },
    /// Stores register `src` into the ciphertext block `dst_blk` of output slot `dst_id`.
    ST { id: OpIdRaw, dst_id: u16, dst_blk: u8, src: u16 },
    /// `dst = keyswitch(src)` — reduces a full-width ciphertext to the width a PBS consumes.
    KS { id: OpIdRaw, dst: u16, src: u16 },
    /// Single-output programmable bootstrapping of the keyswitched register `src` through lookup table `lut`.
    PBS { id: OpIdRaw, dst: u16, src: u16, lut: u8 },
    /// Two-output programmable bootstrapping of the keyswitched register `src` through lookup table `lut`.
    PBS_ML2 { id: OpIdRaw, dst1: u16, dst2: u16, src: u16, lut: u8 },
    /// `dst = trivial(cst)` — a trivial encryption of an inline constant.
    DEF { id: OpIdRaw, dst: u16, cst: u8 },
}

impl VmByteCode {
    /// The identifier of the dialect operation the instruction was lowered from.
    pub open spec fn spec_id(&self) -> OpIdRaw {
        match self {
            VmByteCode::ADD { id, .. } => *id,
            VmByteCode::SUB { id, .. } => *id,
            VmByteCode::MAC { id, .. } => *id,
            VmByteCode::ADDS { id, .. } => *id,
            VmByteCode::SUBS { id, .. } => *id,
            VmByteCode::SSUB { id, .. } => *id,
            VmByteCode::MULS { id, .. } => *id,
            VmByteCode::ADDC { id, .. } => *id,
            VmByteCode::SUBC { id, .. } => *id,
            VmByteCode::CSUB { id, .. } => *id,
            VmByteCode::MULC { id, .. } => *id,
            VmByteCode::LD { id, .. } => *id,
            VmByteCode::ST { id, .. } => *id,
            VmByteCode::KS { id, .. } => *id,
            VmByteCode::PBS { id, .. } => *id,
            VmByteCode::PBS_ML2 { id, .. } => *id,
            VmByteCode::DEF { id, .. } => *id,
        }
    }
    /// The first register written, if any.
    pub open spec fn spec_dst1(&self) -> Option<u16> {
        match self {
            VmByteCode::ADD { dst, .. } => Some(*dst),
            VmByteCode::SUB { dst, .. } => Some(*dst),
            VmByteCode::MAC { dst, .. } => Some(*dst),
            VmByteCode::ADDS { dst, .. } => Some(*dst),
            VmByteCode::SUBS { dst, .. } => Some(*dst),
            VmByteCode::SSUB { dst, .. } => Some(*dst),
            VmByteCode::MULS { dst, .. } => Some(*dst),
            VmByteCode::ADDC { dst, .. } => Some(*dst),
            VmByteCode::SUBC { dst, .. } => Some(*dst),
            VmByteCode::CSUB { dst, .. } => Some(*dst),
            VmByteCode::MULC { dst, .. } => Some(*dst),
            VmByteCode::LD { dst, .. } => Some(*dst),
            VmByteCode::KS { dst, .. } => Some(*dst),
            VmByteCode::PBS { dst, .. } => Some(*dst),
            VmByteCode::PBS_ML2 { dst1, .. } => Some(*dst1),
            VmByteCode::DEF { dst, .. } => Some(*dst),
            _ => None,
        }
    }
    /// The second register written, if any.
    pub open spec fn spec_dst2(&self) -> Option<u16> {
        match self {
            VmByteCode::PBS_ML2 { dst2, .. } => Some(*dst2),
            _ => None,
        }
    }
    /// The first register read, if any.
    pub open spec fn spec_src1(&self) -> Option<u16> {
        match self {
            VmByteCode::ADD { src1, .. } => Some(*src1),
            VmByteCode::SUB { src1, .. } => Some(*src1),
            VmByteCode::MAC { src1, .. } => Some(*src1),
            VmByteCode::ADDS { src, .. } => Some(*src),
            VmByteCode::SUBS { src, .. } => Some(*src),
            VmByteCode::SSUB { src, .. } => Some(*src),
            VmByteCode::MULS { src, .. } => Some(*src),
            VmByteCode::ADDC { src, .. } => Some(*src),
            VmByteCode::SUBC { src, .. } => Some(*src),
            VmByteCode::CSUB { src, .. } => Some(*src),
            VmByteCode::MULC { src, .. } => Some(*src),
            VmByteCode::ST { src, .. } => Some(*src),
            VmByteCode::KS { src, .. } => Some(*src),
            VmByteCode::PBS { src, .. } => Some(*src),
            VmByteCode::PBS_ML2 { src, .. } => Some(*src),
            _ => None,
        }
    }
    /// The second register read, if any.
    pub open spec fn spec_src2(&self) -> Option<u16> {
        match self {
            VmByteCode::ADD { src2, .. } => Some(*src2),
            VmByteCode::SUB { src2, .. } => Some(*src2),
            VmByteCode::MAC { src2, .. } => Some(*src2),
            _ => None,
        }
    }

    /// Returns the identifier of the dialect operation this instruction was lowered from.
    pub fn get_id(&self) -> (r: OpIdRaw)
        ensures
            r == self.spec_id(),
    {
        match self {
            VmByteCode::ADD { id, .. } => *id,
            VmByteCode::SUB { id, .. } => *id,
            VmByteCode::MAC { id, .. } => *id,
            VmByteCode::ADDS { id, .. } => *id,
            VmByteCode::SUBS { id, .. } => *id,
            VmByteCode::SSUB { id, .. } => *id,
            VmByteCode::MULS { id, .. } => *id,
            VmByteCode::ADDC { id, .. } => *id,
            VmByteCode::SUBC { id, .. } => *id,
            VmByteCode::CSUB { id, .. } => *id,
            VmByteCode::MULC { id, .. } => *id,
            VmByteCode::LD { id, .. } => *id,
            VmByteCode::ST { id, .. } => *id,
            VmByteCode::KS { id, .. } => *id,
            VmByteCode::PBS { id, .. } => *id,
            VmByteCode::PBS_ML2 { id, .. } => *id,
            VmByteCode::DEF { id, .. } => *id,
        }
    }

    /// Returns the first register written by this instruction, if any: every variant but `ST` writes one.
    pub fn get_dst1(&self) -> (r: Option<u16>)
        ensures
            r == self.spec_dst1(),
    {
        match self {
            VmByteCode::ADD { dst, .. } => Some(*dst),
            VmByteCode::SUB { dst, .. } => Some(*dst),
            VmByteCode::MAC { dst, .. } => Some(*dst),
            VmByteCode::ADDS { dst, .. } => Some(*dst),
            VmByteCode::SUBS { dst, .. } => Some(*dst),
            VmByteCode::SSUB { dst, .. } => Some(*dst),
            VmByteCode::MULS { dst, .. } => Some(*dst),
            VmByteCode::ADDC { dst, .. } => Some(*dst),
            VmByteCode::SUBC { dst, .. } => Some(*dst),
            VmByteCode::CSUB { dst, .. } => Some(*dst),
            VmByteCode::MULC { dst, .. } => Some(*dst),
            VmByteCode::LD { dst, .. } => Some(*dst),
            VmByteCode::KS { dst, .. } => Some(*dst),
            VmByteCode::PBS { dst, .. } => Some(*dst),
            VmByteCode::PBS_ML2 { dst1, .. } => Some(*dst1),
            VmByteCode::DEF { dst, .. } => Some(*dst),
            _ => None,
        }
    }

    /// Returns the second register written by this instruction, if any: only `PBS_ML2` has one.
    pub fn get_dst2(&self) -> (r: Option<u16>)
        ensures
            r == self.spec_dst2(),
    {
        match self {
            VmByteCode::PBS_ML2 { dst2, .. } => Some(*dst2),
            _ => None,
        }
    }

    /// Returns the first register read by this instruction, if any: `LD` and `DEF` read none.
    pub fn get_src1(&self) -> (r: Option<u16>)
        ensures
            r == self.spec_src1(),
    {
        match self {
            VmByteCode::ADD { src1, .. } => Some(*src1),
            VmByteCode::SUB { src1, .. } => Some(*src1),
            VmByteCode::MAC { src1, .. } => Some(*src1),
            VmByteCode::ADDS { src, .. } => Some(*src),
            VmByteCode::SUBS { src, .. } => Some(*src),
            VmByteCode::SSUB { src, .. } => Some(*src),
            VmByteCode::MULS { src, .. } => Some(*src),
            VmByteCode::ADDC { src, .. } => Some(*src),
            VmByteCode::SUBC { src, .. } => Some(*src),
            VmByteCode::CSUB { src, .. } => Some(*src),
            VmByteCode::MULC { src, .. } => Some(*src),
            VmByteCode::ST { src, .. } => Some(*src),
            VmByteCode::KS { src, .. } => Some(*src),
            VmByteCode::PBS { src, .. } => Some(*src),
            VmByteCode::PBS_ML2 { src, .. } => Some(*src),
            _ => None,
        }
    }

    /// Returns the second register read by this instruction, if any: only `ADD`, `SUB` and `MAC` have one.
    pub fn get_src2(&self) -> (r: Option<u16>)
        ensures
            r == self.spec_src2(),
    {
        match self {
            VmByteCode::ADD { src2, .. } => Some(*src2),
            VmByteCode::SUB { src2, .. } => Some(*src2),
            VmByteCode::MAC { src2, .. } => Some(*src2),
            _ => None,
        }
    }

    /// The textual form of the instruction: its mnemonic followed by `name=value` fields.
    pub open spec fn spec_dump(&self) -> Seq<char> {
        match self {
            VmByteCode::ADD { id, dst, src1, src2 } => "ADD id="@ + decimal(*id as nat) + " dst="@ + decimal(*dst as nat) + " src1="@ + decimal(*src1 as nat) + " src2="@ + decimal(*src2 as nat),
            VmByteCode::SUB { id, dst, src1, src2 } => "SUB id="@ + decimal(*id as nat) + " dst="@ + decimal(*dst as nat) + " src1="@ + decimal(*src1 as nat) + " src2="@ + decimal(*src2 as nat),
            VmByteCode::MAC { id, dst, src1, src2, cst } => "MAC id="@ + decimal(*id as nat) + " dst="@ + decimal(*dst as nat) + " src1="@ + decimal(*src1 as nat) + " src2="@ + decimal(*src2 as nat) + " cst="@ + decimal(*cst as nat),
            VmByteCode::ADDS { id, dst, src, s_id, s_blk } => "ADDS id="@ + decimal(*id as nat) + " dst="@ + decimal(*dst as nat) + " src="@ + decimal(*src as nat) + " s_id="@ + decimal(*s_id as nat) + " s_blk="@ + decimal(*s_blk as nat),
            VmByteCode::SUBS { id, dst, src, s_id, s_blk } => "SUBS id="@ + decimal(*id as nat) + " dst="@ + decimal(*dst as nat) + " src="@ + decimal(*src as nat) + " s_id="@ + decimal(*s_id as nat) + " s_blk="@ + decimal(*s_blk as nat),
            VmByteCode::SSUB { id, dst, src, s_id, s_blk } => "SSUB id="@ + decimal(*id as nat) + " dst="@ + decimal(*dst as nat) + " src="@ + decimal(*src as nat) + " s_id="@ + decimal(*s_id as nat) + " s_blk="@ + decimal(*s_blk as nat),
            VmByteCode::MULS { id, dst, src, s_id, s_blk } => "MULS id="@ + decimal(*id as nat) + " dst="@ + decimal(*dst as nat) + " src="@ + decimal(*src as nat) + " s_id="@ + decimal(*s_id as nat) + " s_blk="@ + decimal(*s_blk as nat),
            VmByteCode::ADDC { id, dst, src, cst } => "ADDC id="@ + decimal(*id as nat) + " dst="@ + decimal(*dst as nat) + " src="@ + decimal(*src as nat) + " cst="@ + decimal(*cst as nat),
            VmByteCode::SUBC { id, dst, src, cst } => "SUBC id="@ + decimal(*id as nat) + " dst="@ + decimal(*dst as nat) + " src="@ + decimal(*src as nat) + " cst="@ + decimal(*cst as nat),
            VmByteCode::CSUB { id, dst, src, cst } => "CSUB id="@ + decimal(*id as nat) + " dst="@ + decimal(*dst as nat) + " src="@ + decimal(*src as nat) + " cst="@ + decimal(*cst as nat),
            VmByteCode::MULC { id, dst, src, cst } => "MULC id="@ + decimal(*id as nat) + " dst="@ + decimal(*dst as nat) + " src="@ + decimal(*src as nat) + " cst="@ + decimal(*cst as nat),
            VmByteCode::LD { id, dst, src_id, src_blk } => "LD id="@ + decimal(*id as nat) + " dst="@ + decimal(*dst as nat) + " src_id="@ + decimal(*src_id as nat) + " src_blk="@ + decimal(*src_blk as nat),
            VmByteCode::ST { id, dst_id, dst_blk, src } => "ST id="@ + decimal(*id as nat) + " dst_id="@ + decimal(*dst_id as nat) + " dst_blk="@ + decimal(*dst_blk as nat) + " src="@ + decimal(*src as nat),
            VmByteCode::KS { id, dst, src } => "KS id="@ + decimal(*id as nat) + " dst="@ + decimal(*dst as nat) + " src="@ + decimal(*src as nat),
            VmByteCode::PBS { id, dst, src, lut } => "PBS id="@ + decimal(*id as nat) + " dst="@ + decimal(*dst as nat) + " src="@ + decimal(*src as nat) + " lut="@ + decimal(*lut as nat),
            VmByteCode::PBS_ML2 { id, dst1, dst2, src, lut } => "PBS_ML2 id="@ + decimal(*id as nat) + " dst1="@ + decimal(*dst1 as nat) + " dst2="@ + decimal(*dst2 as nat) + " src="@ + decimal(*src as nat) + " lut="@ + decimal(*lut as nat),
            VmByteCode::DEF { id, dst, cst } => "DEF id="@ + decimal(*id as nat) + " dst="@ + decimal(*dst as nat) + " cst="@ + decimal(*cst as nat),
        }
    }

    /// Renders the instruction as text, for instance `ADD id=3 dst=1 src1=2 src2=0`.
    pub fn dump_to_string(&self) -> (r: String)
        ensures
            r@ == self.spec_dump(),
    {
        let mut s = String::new();
        match self {
            VmByteCode::ADD { id, dst, src1, src2 } => {
                push_field(&mut s, "ADD id=", *id as u64);
                push_field(&mut s, " dst=", *dst as u64);
                push_field(&mut s, " src1=", *src1 as u64);
                push_field(&mut s, " src2=", *src2 as u64);
            },
            VmByteCode::SUB { id, dst, src1, src2 } => {
                push_field(&mut s, "SUB id=", *id as u64);
                push_field(&mut s, " dst=", *dst as u64);
                push_field(&mut s, " src1=", *src1 as u64);
                push_field(&mut s, " src2=", *src2 as u64);
            },
            VmByteCode::MAC { id, dst, src1, src2, cst } => {
                push_field(&mut s, "MAC id=", *id as u64);
                push_field(&mut s, " dst=", *dst as u64);
                push_field(&mut s, " src1=", *src1 as u64);
                push_field(&mut s, " src2=", *src2 as u64);
                push_field(&mut s, " cst=", *cst as u64);
            },
            VmByteCode::ADDS { id, dst, src, s_id, s_blk } => {
                push_field(&mut s, "ADDS id=", *id as u64);
                push_field(&mut s, " dst=", *dst as u64);
                push_field(&mut s, " src=", *src as u64);
                push_field(&mut s, " s_id=", *s_id as u64);
                push_field(&mut s, " s_blk=", *s_blk as u64);
            },
            VmByteCode::SUBS { id, dst, src, s_id, s_blk } => {
                push_field(&mut s, "SUBS id=", *id as u64);
                push_field(&mut s, " dst=", *dst as u64);
                push_field(&mut s, " src=", *src as u64);
                push_field(&mut s, " s_id=", *s_id as u64);
                push_field(&mut s, " s_blk=", *s_blk as u64);
            },
            VmByteCode::SSUB { id, dst, src, s_id, s_blk } => {
                push_field(&mut s, "SSUB id=", *id as u64);
                push_field(&mut s, " dst=", *dst as u64);
                push_field(&mut s, " src=", *src as u64);
                push_field(&mut s, " s_id=", *s_id as u64);
                push_field(&mut s, " s_blk=", *s_blk as u64);
            },
            VmByteCode::MULS { id, dst, src, s_id, s_blk } => {
                push_field(&mut s, "MULS id=", *id as u64);
                push_field(&mut s, " dst=", *dst as u64);
                push_field(&mut s, " src=", *src as u64);
                push_field(&mut s, " s_id=", *s_id as u64);
                push_field(&mut s, " s_blk=", *s_blk as u64);
            },
            VmByteCode::ADDC { id, dst, src, cst } => {
                push_field(&mut s, "ADDC id=", *id as u64);
                push_field(&mut s, " dst=", *dst as u64);
                push_field(&mut s, " src=", *src as u64);
                push_field(&mut s, " cst=", *cst as u64);
            },
            VmByteCode::SUBC { id, dst, src, cst } => {
                push_field(&mut s, "SUBC id=", *id as u64);
                push_field(&mut s, " dst=", *dst as u64);
                push_field(&mut s, " src=", *src as u64);
                push_field(&mut s, " cst=", *cst as u64);
            },
            VmByteCode::CSUB { id, dst, src, cst } => {
                push_field(&mut s, "CSUB id=", *id as u64);
                push_field(&mut s, " dst=", *dst as u64);
                push_field(&mut s, " src=", *src as u64);
                push_field(&mut s, " cst=", *cst as u64);
            },
            VmByteCode::MULC { id, dst, src, cst } => {
                push_field(&mut s, "MULC id=", *id as u64);
                push_field(&mut s, " dst=", *dst as u64);
                push_field(&mut s, " src=", *src as u64);
                push_field(&mut s, " cst=", *cst as u64);
            },
            VmByteCode::LD { id, dst, src_id, src_blk } => {
                push_field(&mut s, "LD id=", *id as u64);
                push_field(&mut s, " dst=", *dst as u64);
                push_field(&mut s, " src_id=", *src_id as u64);
                push_field(&mut s, " src_blk=", *src_blk as u64);
            },
            VmByteCode::ST { id, dst_id, dst_blk, src } => {
                push_field(&mut s, "ST id=", *id as u64);
                push_field(&mut s, " dst_id=", *dst_id as u64);
                push_field(&mut s, " dst_blk=", *dst_blk as u64);
                push_field(&mut s, " src=", *src as u64);
            },
            VmByteCode::KS { id, dst, src } => {
                push_field(&mut s, "KS id=", *id as u64);
                push_field(&mut s, " dst=", *dst as u64);
                push_field(&mut s, " src=", *src as u64);
            },
            VmByteCode::PBS { id, dst, src, lut } => {
                push_field(&mut s, "PBS id=", *id as u64);
                push_field(&mut s, " dst=", *dst as u64);
                push_field(&mut s, " src=", *src as u64);
                push_field(&mut s, " lut=", *lut as u64);
            },
            VmByteCode::PBS_ML2 { id, dst1, dst2, src, lut } => {
                push_field(&mut s, "PBS_ML2 id=", *id as u64);
                push_field(&mut s, " dst1=", *dst1 as u64);
                push_field(&mut s, " dst2=", *dst2 as u64);
                push_field(&mut s, " src=", *src as u64);
                push_field(&mut s, " lut=", *lut as u64);
            },
            VmByteCode::DEF { id, dst, cst } => {
                push_field(&mut s, "DEF id=", *id as u64);
                push_field(&mut s, " dst=", *dst as u64);
                push_field(&mut s, " cst=", *cst as u64);
            },
        }
        s
    }
}

/// A prefix of a text stays a prefix of anything appended to it.
proof fn lemma_prefix_extends(p: Seq<char>, x: Seq<char>, y: Seq<char>)
    requires
        p.is_prefix_of(x),
    ensures
        p.is_prefix_of(x + y),
{
    assert((x + y).subrange(0, p.len() as int) =~= x.subrange(0, p.len() as int));
}

/// Every text is a prefix of itself.
proof fn lemma_prefix_refl(p: Seq<char>)
    ensures
        p.is_prefix_of(p),
{
    assert(p.subrange(0, p.len() as int) =~= p);
}

/// The dump of an instruction starts with the mnemonic of its own variant, then `id=` and the
/// identifier of the operation it was lowered from.
pub proof fn lemma_dump_mnemonic(b: VmByteCode)
    ensures
        b is ADD ==> ("ADD id="@ + decimal(b.spec_id() as nat)).is_prefix_of(b.spec_dump()),
        b is SUB ==> ("SUB id="@ + decimal(b.spec_id() as nat)).is_prefix_of(b.spec_dump()),
        b is MAC ==> ("MAC id="@ + decimal(b.spec_id() as nat)).is_prefix_of(b.spec_dump()),
        b is ADDS ==> ("ADDS id="@ + decimal(b.spec_id() as nat)).is_prefix_of(b.spec_dump()),
        b is SUBS ==> ("SUBS id="@ + decimal(b.spec_id() as nat)).is_prefix_of(b.spec_dump()),
        b is SSUB ==> ("SSUB id="@ + decimal(b.spec_id() as nat)).is_prefix_of(b.spec_dump()),
        b is MULS ==> ("MULS id="@ + decimal(b.spec_id() as nat)).is_prefix_of(b.spec_dump()),
        b is ADDC ==> ("ADDC id="@ + decimal(b.spec_id() as nat)).is_prefix_of(b.spec_dump()),
        b is SUBC ==> ("SUBC id="@ + decimal(b.spec_id() as nat)).is_prefix_of(b.spec_dump()),
        b is CSUB ==> ("CSUB id="@ + decimal(b.spec_id() as nat)).is_prefix_of(b.spec_dump()),
        b is MULC ==> ("MULC id="@ + decimal(b.spec_id() as nat)).is_prefix_of(b.spec_dump()),
        b is LD ==> ("LD id="@ + decimal(b.spec_id() as nat)).is_prefix_of(b.spec_dump()),
        b is ST ==> ("ST id="@ + decimal(b.spec_id() as nat)).is_prefix_of(b.spec_dump()),
        b is KS ==> ("KS id="@ + decimal(b.spec_id() as nat)).is_prefix_of(b.spec_dump()),
        b is PBS ==> ("PBS id="@ + decimal(b.spec_id() as nat)).is_prefix_of(b.spec_dump()),
        b is PBS_ML2 ==> ("PBS_ML2 id="@ + decimal(b.spec_id() as nat)).is_prefix_of(b.spec_dump()),
        b is DEF ==> ("DEF id="@ + decimal(b.spec_id() as nat)).is_prefix_of(b.spec_dump()),
{
    match b {
        VmByteCode::ADD { id, dst, src1, src2 } => {
            let p = "ADD id="@ + decimal(id as nat);
            lemma_prefix_refl(p);
            lemma_prefix_extends(p, p, " dst="@);
            lemma_prefix_extends(p, (p + " dst="@), decimal(dst as nat));
            lemma_prefix_extends(p, ((p + " dst="@) + decimal(dst as nat)), " src1="@);
            lemma_prefix_extends(p, (((p + " dst="@) + decimal(dst as nat)) + " src1="@), decimal(src1 as nat));
            lemma_prefix_extends(p, ((((p + " dst="@) + decimal(dst as nat)) + " src1="@) + decimal(src1 as nat)), " src2="@);
            lemma_prefix_extends(p, (((((p + " dst="@) + decimal(dst as nat)) + " src1="@) + decimal(src1 as nat)) + " src2="@), decimal(src2 as nat));
            assert(((((((p + " dst="@) + decimal(dst as nat)) + " src1="@) + decimal(src1 as nat)) + " src2="@) + decimal(src2 as nat)) == b.spec_dump());
        },
        VmByteCode::SUB { id, dst, src1, src2 } => {
            let p = "SUB id="@ + decimal(id as nat);
            lemma_prefix_refl(p);
            lemma_prefix_extends(p, p, " dst="@);
            lemma_prefix_extends(p, (p + " dst="@), decimal(dst as nat));
            lemma_prefix_extends(p, ((p + " dst="@) + decimal(dst as nat)), " src1="@);
            lemma_prefix_extends(p, (((p + " dst="@) + decimal(dst as nat)) + " src1="@), decimal(src1 as nat));
            lemma_prefix_extends(p, ((((p + " dst="@) + decimal(dst as nat)) + " src1="@) + decimal(src1 as nat)), " src2="@);
            lemma_prefix_extends(p, (((((p + " dst="@) + decimal(dst as nat)) + " src1="@) + decimal(src1 as nat)) + " src2="@), decimal(src2 as nat));
            assert(((((((p + " dst="@) + decimal(dst as nat)) + " src1="@) + decimal(src1 as nat)) + " src2="@) + decimal(src2 as nat)) == b.spec_dump());
        },
        VmByteCode::MAC { id, dst, src1, src2, cst } => {
            let p = "MAC id="@ + decimal(id as nat);
            lemma_prefix_refl(p);
            lemma_prefix_extends(p, p, " dst="@);
            lemma_prefix_extends(p, (p + " dst="@), decimal(dst as nat));
            lemma_prefix_extends(p, ((p + " dst="@) + decimal(dst as nat)), " src1="@);
            lemma_prefix_extends(p, (((p + " dst="@) + decimal(dst as nat)) + " src1="@), decimal(src1 as nat));
            lemma_prefix_extends(p, ((((p + " dst="@) + decimal(dst as nat)) + " src1="@) + decimal(src1 as nat)), " src2="@);
            lemma_prefix_extends(p, (((((p + " dst="@) + decimal(dst as nat)) + " src1="@) + decimal(src1 as nat)) + " src2="@), decimal(src2 as nat));
            lemma_prefix_extends(p, ((((((p + " dst="@) + decimal(dst as nat)) + " src1="@) + decimal(src1 as nat)) + " src2="@) + decimal(src2 as nat)), " cst="@);
            lemma_prefix_extends(p, (((((((p + " dst="@) + decimal(dst as nat)) + " src1="@) + decimal(src1 as nat)) + " src2="@) + decimal(src2 as nat)) + " cst="@), decimal(cst as nat));
            assert(((((((((p + " dst="@) + decimal(dst as nat)) + " src1="@) + decimal(src1 as nat)) + " src2="@) + decimal(src2 as nat)) + " cst="@) + decimal(cst as nat)) == b.spec_dump());
        },
        VmByteCode::ADDS { id, dst, src, s_id, s_blk } => {
            let p = "ADDS id="@ + decimal(id as nat);
            lemma_prefix_refl(p);
            lemma_prefix_extends(p, p, " dst="@);
            lemma_prefix_extends(p, (p + " dst="@), decimal(dst as nat));
            lemma_prefix_extends(p, ((p + " dst="@) + decimal(dst as nat)), " src="@);
            lemma_prefix_extends(p, (((p + " dst="@) + decimal(dst as nat)) + " src="@), decimal(src as nat));
            lemma_prefix_extends(p, ((((p + " dst="@) + decimal(dst as nat)) + " src="@) + decimal(src as nat)), " s_id="@);
            lemma_prefix_extends(p, (((((p + " dst="@) + decimal(dst as nat)) + " src="@) + decimal(src as nat)) + " s_id="@), decimal(s_id as nat));
            lemma_prefix_extends(p, ((((((p + " dst="@) + decimal(dst as nat)) + " src="@) + decimal(src as nat)) + " s_id="@) + decimal(s_id as nat)), " s_blk="@);
            lemma_prefix_extends(p, (((((((p + " dst="@) + decimal(dst as nat)) + " src="@) + decimal(src as nat)) + " s_id="@) + decimal(s_id as nat)) + " s_blk="@), decimal(s_blk as nat));
            assert(((((((((p + " dst="@) + decimal(dst as nat)) + " src="@) + decimal(src as nat)) + " s_id="@) + decimal(s_id as nat)) + " s_blk="@) + decimal(s_blk as nat)) == b.spec_dump());
        },
        VmByteCode::SUBS { id, dst, src, s_id, s_blk } => {
            let p = "SUBS id="@ + decimal(id as nat);
            lemma_prefix_refl(p);
            lemma_prefix_extends(p, p, " dst="@);
            lemma_prefix_extends(p, (p + " dst="@), decimal(dst as nat));
            lemma_prefix_extends(p, ((p + " dst="@) + decimal(dst as nat)), " src="@);
            lemma_prefix_extends(p, (((p + " dst="@) + decimal(dst as nat)) + " src="@), decimal(src as nat));
            lemma_prefix_extends(p, ((((p + " dst="@) + decimal(dst as nat)) + " src="@) + decimal(src as nat)), " s_id="@);
            lemma_prefix_extends(p, (((((p + " dst="@) + decimal(dst as nat)) + " src="@) + decimal(src as nat)) + " s_id="@), decimal(s_id as nat));
            lemma_prefix_extends(p, ((((((p + " dst="@) + decimal(dst as nat)) + " src="@) + decimal(src as nat)) + " s_id="@) + decimal(s_id as nat)), " s_blk="@);
            lemma_prefix_extends(p, (((((((p + " dst="@) + decimal(dst as nat)) + " src="@) + decimal(src as nat)) + " s_id="@) + decimal(s_id as nat)) + " s_blk="@), decimal(s_blk as nat));
            assert(((((((((p + " dst="@) + decimal(dst as nat)) + " src="@) + decimal(src as nat)) + " s_id="@) + decimal(s_id as nat)) + " s_blk="@) + decimal(s_blk as nat)) == b.spec_dump());
        },
        VmByteCode::SSUB { id, dst, src, s_id, s_blk } => {
            let p = "SSUB id="@ + decimal(id as nat);
            lemma_prefix_refl(p);
            lemma_prefix_extends(p, p, " dst="@);
            lemma_prefix_extends(p, (p + " dst="@), decimal(dst as nat));
            lemma_prefix_extends(p, ((p + " dst="@) + decimal(dst as nat)), " src="@);
            lemma_prefix_extends(p, (((p + " dst="@) + decimal(dst as nat)) + " src="@), decimal(src as nat));
            lemma_prefix_extends(p, ((((p + " dst="@) + decimal(dst as nat)) + " src="@) + decimal(src as nat)), " s_id="@);
            lemma_prefix_extends(p, (((((p + " dst="@) + decimal(dst as nat)) + " src="@) + decimal(src as nat)) + " s_id="@), decimal(s_id as nat));
            lemma_prefix_extends(p, ((((((p + " dst="@) + decimal(dst as nat)) + " src="@) + decimal(src as nat)) + " s_id="@) + decimal(s_id as nat)), " s_blk="@);
            lemma_prefix_extends(p, (((((((p + " dst="@) + decimal(dst as nat)) + " src="@) + decimal(src as nat)) + " s_id="@) + decimal(s_id as nat)) + " s_blk="@), decimal(s_blk as nat));
            assert(((((((((p + " dst="@) + decimal(dst as nat)) + " src="@) + decimal(src as nat)) + " s_id="@) + decimal(s_id as nat)) + " s_blk="@) + decimal(s_blk as nat)) == b.spec_dump());
        },
        VmByteCode::MULS { id, dst, src, s_id, s_blk } => {
            let p = "MULS id="@ + decimal(id as nat);
            lemma_prefix_refl(p);
            lemma_prefix_extends(p, p, " dst="@);
            lemma_prefix_extends(p, (p + " dst="@), decimal(dst as nat));
            lemma_prefix_extends(p, ((p + " dst="@) + decimal(dst as nat)), " src="@);
            lemma_prefix_extends(p, (((p + " dst="@) + decimal(dst as nat)) + " src="@), decimal(src as nat));
            lemma_prefix_extends(p, ((((p + " dst="@) + decimal(dst as nat)) + " src="@) + decimal(src as nat)), " s_id="@);
            lemma_prefix_extends(p, (((((p + " dst="@) + decimal(dst as nat)) + " src="@) + decimal(src as nat)) + " s_id="@), decimal(s_id as nat));
            lemma_prefix_extends(p, ((((((p + " dst="@) + decimal(dst as nat)) + " src="@) + decimal(src as nat)) + " s_id="@) + decimal(s_id as nat)), " s_blk="@);
            lemma_prefix_extends(p, (((((((p + " dst="@) + decimal(dst as nat)) + " src="@) + decimal(src as nat)) + " s_id="@) + decimal(s_id as nat)) + " s_blk="@), decimal(s_blk as nat));
            assert(((((((((p + " dst="@) + decimal(dst as nat)) + " src="@) + decimal(src as nat)) + " s_id="@) + decimal(s_id as nat)) + " s_blk="@) + decimal(s_blk as nat)) == b.spec_dump());
        },
        VmByteCode::ADDC { id, dst, src, cst } => {
            let p = "ADDC id="@ + decimal(id as nat);
            lemma_prefix_refl(p);
            lemma_prefix_extends(p, p, " dst="@);
            lemma_prefix_extends(p, (p + " dst="@), decimal(dst as nat));
            lemma_prefix_extends(p, ((p + " dst="@) + decimal(dst as nat)), " src="@);
            lemma_prefix_extends(p, (((p + " dst="@) + decimal(dst as nat)) + " src="@), decimal(src as nat));
            lemma_prefix_extends(p, ((((p + " dst="@) + decimal(dst as nat)) + " src="@) + decimal(src as nat)), " cst="@);
            lemma_prefix_extends(p, (((((p + " dst="@) + decimal(dst as nat)) + " src="@) + decimal(src as nat)) + " cst="@), decimal(cst as nat));
            assert(((((((p + " dst="@) + decimal(dst as nat)) + " src="@) + decimal(src as nat)) + " cst="@) + decimal(cst as nat)) == b.spec_dump());
        },
        VmByteCode::SUBC { id, dst, src, cst } => {
            let p = "SUBC id="@ + decimal(id as nat);
            lemma_prefix_refl(p);
            lemma_prefix_extends(p, p, " dst="@);
            lemma_prefix_extends(p, (p + " dst="@), decimal(dst as nat));
            lemma_prefix_extends(p, ((p + " dst="@) + decimal(dst as nat)), " src="@);
            lemma_prefix_extends(p, (((p + " dst="@) + decimal(dst as nat)) + " src="@), decimal(src as nat));
            lemma_prefix_extends(p, ((((p + " dst="@) + decimal(dst as nat)) + " src="@) + decimal(src as nat)), " cst="@);
            lemma_prefix_extends(p, (((((p + " dst="@) + decimal(dst as nat)) + " src="@) + decimal(src as nat)) + " cst="@), decimal(cst as nat));
            assert(((((((p + " dst="@) + decimal(dst as nat)) + " src="@) + decimal(src as nat)) + " cst="@) + decimal(cst as nat)) == b.spec_dump());
        },
        VmByteCode::CSUB { id, dst, src, cst } => {
            let p = "CSUB id="@ + decimal(id as nat);
            lemma_prefix_refl(p);
            lemma_prefix_extends(p, p, " dst="@);
            lemma_prefix_extends(p, (p + " dst="@), decimal(dst as nat));
            lemma_prefix_extends(p, ((p + " dst="@) + decimal(dst as nat)), " src="@);
            lemma_prefix_extends(p, (((p + " dst="@) + decimal(dst as nat)) + " src="@), decimal(src as nat));
            lemma_prefix_extends(p, ((((p + " dst="@) + decimal(dst as nat)) + " src="@) + decimal(src as nat)), " cst="@);
            lemma_prefix_extends(p, (((((p + " dst="@) + decimal(dst as nat)) + " src="@) + decimal(src as nat)) + " cst="@), decimal(cst as nat));
            assert(((((((p + " dst="@) + decimal(dst as nat)) + " src="@) + decimal(src as nat)) + " cst="@) + decimal(cst as nat)) == b.spec_dump());
        },
        VmByteCode::MULC { id, dst, src, cst } => {
            let p = "MULC id="@ + decimal(id as nat);
            lemma_prefix_refl(p);
            lemma_prefix_extends(p, p, " dst="@);
            lemma_prefix_extends(p, (p + " dst="@), decimal(dst as nat));
            lemma_prefix_extends(p, ((p + " dst="@) + decimal(dst as nat)), " src="@);
            lemma_prefix_extends(p, (((p + " dst="@) + decimal(dst as nat)) + " src="@), decimal(src as nat));
            lemma_prefix_extends(p, ((((p + " dst="@) + decimal(dst as nat)) + " src="@) + decimal(src as nat)), " cst="@);
            lemma_prefix_extends(p, (((((p + " dst="@) + decimal(dst as nat)) + " src="@) + decimal(src as nat)) + " cst="@), decimal(cst as nat));
            assert(((((((p + " dst="@) + decimal(dst as nat)) + " src="@) + decimal(src as nat)) + " cst="@) + decimal(cst as nat)) == b.spec_dump());
        },
        VmByteCode::LD { id, dst, src_id, src_blk } => {
            let p = "LD id="@ + decimal(id as nat);
            lemma_prefix_refl(p);
            lemma_prefix_extends(p, p, " dst="@);
            lemma_prefix_extends(p, (p + " dst="@), decimal(dst as nat));
            lemma_prefix_extends(p, ((p + " dst="@) + decimal(dst as nat)), " src_id="@);
            lemma_prefix_extends(p, (((p + " dst="@) + decimal(dst as nat)) + " src_id="@), decimal(src_id as nat));
            lemma_prefix_extends(p, ((((p + " dst="@) + decimal(dst as nat)) + " src_id="@) + decimal(src_id as nat)), " src_blk="@);
            lemma_prefix_extends(p, (((((p + " dst="@) + decimal(dst as nat)) + " src_id="@) + decimal(src_id as nat)) + " src_blk="@), decimal(src_blk as nat));
            assert(((((((p + " dst="@) + decimal(dst as nat)) + " src_id="@) + decimal(src_id as nat)) + " src_blk="@) + decimal(src_blk as nat)) == b.spec_dump());
        },
        VmByteCode::ST { id, dst_id, dst_blk, src } => {
            let p = "ST id="@ + decimal(id as nat);
            lemma_prefix_refl(p);
            lemma_prefix_extends(p, p, " dst_id="@);
            lemma_prefix_extends(p, (p + " dst_id="@), decimal(dst_id as nat));
            lemma_prefix_extends(p, ((p + " dst_id="@) + decimal(dst_id as nat)), " dst_blk="@);
            lemma_prefix_extends(p, (((p + " dst_id="@) + decimal(dst_id as nat)) + " dst_blk="@), decimal(dst_blk as nat));
            lemma_prefix_extends(p, ((((p + " dst_id="@) + decimal(dst_id as nat)) + " dst_blk="@) + decimal(dst_blk as nat)), " src="@);
            lemma_prefix_extends(p, (((((p + " dst_id="@) + decimal(dst_id as nat)) + " dst_blk="@) + decimal(dst_blk as nat)) + " src="@), decimal(src as nat));
            assert(((((((p + " dst_id="@) + decimal(dst_id as nat)) + " dst_blk="@) + decimal(dst_blk as nat)) + " src="@) + decimal(src as nat)) == b.spec_dump());
        },
        VmByteCode::KS { id, dst, src } => {
            let p = "KS id="@ + decimal(id as nat);
            lemma_prefix_refl(p);
            lemma_prefix_extends(p, p, " dst="@);
            lemma_prefix_extends(p, (p + " dst="@), decimal(dst as nat));
            lemma_prefix_extends(p, ((p + " dst="@) + decimal(dst as nat)), " src="@);
            lemma_prefix_extends(p, (((p + " dst="@) + decimal(dst as nat)) + " src="@), decimal(src as nat));
            assert(((((p + " dst="@) + decimal(dst as nat)) + " src="@) + decimal(src as nat)) == b.spec_dump());
        },
        VmByteCode::PBS { id, dst, src, lut } => {
            let p = "PBS id="@ + decimal(id as nat);
            lemma_prefix_refl(p);
            lemma_prefix_extends(p, p, " dst="@);
            lemma_prefix_extends(p, (p + " dst="@), decimal(dst as nat));
            lemma_prefix_extends(p, ((p + " dst="@) + decimal(dst as nat)), " src="@);
            lemma_prefix_extends(p, (((p + " dst="@) + decimal(dst as nat)) + " src="@), decimal(src as nat));
            lemma_prefix_extends(p, ((((p + " dst="@) + decimal(dst as nat)) + " src="@) + decimal(src as nat)), " lut="@);
            lemma_prefix_extends(p, (((((p + " dst="@) + decimal(dst as nat)) + " src="@) + decimal(src as nat)) + " lut="@), decimal(lut as nat));
            assert(((((((p + " dst="@) + decimal(dst as nat)) + " src="@) + decimal(src as nat)) + " lut="@) + decimal(lut as nat)) == b.spec_dump());
        },
        VmByteCode::PBS_ML2 { id, dst1, dst2, src, lut } => {
            let p = "PBS_ML2 id="@ + decimal(id as nat);
            lemma_prefix_refl(p);
            lemma_prefix_extends(p, p, " dst1="@);
            lemma_prefix_extends(p, (p + " dst1="@), decimal(dst1 as nat));
            lemma_prefix_extends(p, ((p + " dst1="@) + decimal(dst1 as nat)), " dst2="@);
            lemma_prefix_extends(p, (((p + " dst1="@) + decimal(dst1 as nat)) + " dst2="@), decimal(dst2 as nat));
            lemma_prefix_extends(p, ((((p + " dst1="@) + decimal(dst1 as nat)) + " dst2="@) + decimal(dst2 as nat)), " src="@);
            lemma_prefix_extends(p, (((((p + " dst1="@) + decimal(dst1 as nat)) + " dst2="@) + decimal(dst2 as nat)) + " src="@), decimal(src as nat));
            lemma_prefix_extends(p, ((((((p + " dst1="@) + decimal(dst1 as nat)) + " dst2="@) + decimal(dst2 as nat)) + " src="@) + decimal(src as nat)), " lut="@);
            lemma_prefix_extends(p, (((((((p + " dst1="@) + decimal(dst1 as nat)) + " dst2="@) + decimal(dst2 as nat)) + " src="@) + decimal(src as nat)) + " lut="@), decimal(lut as nat));
            assert(((((((((p + " dst1="@) + decimal(dst1 as nat)) + " dst2="@) + decimal(dst2 as nat)) + " src="@) + decimal(src as nat)) + " lut="@) + decimal(lut as nat)) == b.spec_dump());
        },
        VmByteCode::DEF { id, dst, cst } => {
            let p = "DEF id="@ + decimal(id as nat);
            lemma_prefix_refl(p);
            lemma_prefix_extends(p, p, " dst="@);
            lemma_prefix_extends(p, (p + " dst="@), decimal(dst as nat));
            lemma_prefix_extends(p, ((p + " dst="@) + decimal(dst as nat)), " cst="@);
            lemma_prefix_extends(p, (((p + " dst="@) + decimal(dst as nat)) + " cst="@), decimal(cst as nat));
            assert(((((p + " dst="@) + decimal(dst as nat)) + " cst="@) + decimal(cst as nat)) == b.spec_dump());
        },
    }
}

/// Which register operands an instruction reports: `ST` alone writes no register, `PBS_ML2`
/// alone writes a second one, `LD` and `DEF` alone read no register, and `ADD`, `SUB` and `MAC`
/// alone read a second one.
pub proof fn lemma_register_operands(b: VmByteCode)
    ensures
        b.spec_dst1() is None <==> b is ST,
        b.spec_dst2() is Some <==> b is PBS_ML2,
        b.spec_src1() is None <==> (b is LD || b is DEF),
        b.spec_src2() is Some <==> (b is ADD || b is SUB || b is MAC),
{
}

} // verus!
