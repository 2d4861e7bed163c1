use zhc::compat::Iop;
use zhc::erc7984::{carry_propagation, CarryPropagation};
use zhc::html::html_escape;
use zhc::ids::{OpId, ValId, ValueNumber};
use zhc::locality::{HpuId, HpuLocality, HpuTypeSystem, LayoutTypeSystem, TransferId};
use zhc::strutil::{contains, parse_u16, split, strip_prefix, trim};
use zhc::text::decimal_padded;
use zhc::vm_bytecode::{VmByteCode, VmTypeSystem};
use zhc::vm_config::{VmConfig, LUTS_REGISTRY_SIZE};

fn config() -> VmConfig {
    VmConfig {
        lwe_dim: 786,
        bsk_polynomial_size: 2048,
        bsk_glwe_dim: 1,
        bsk_dec_levels: 1,
        bsk_dec_base_log: 23,
        ksk_dec_levels: 5,
        ksk_dec_base_log: 3,
        delta: 1 << 60,
        carry_size: 2,
        message_size: 2,
        regf_size: 64,
    }
}

#[test]
fn vm_config_sizes() {
    let c = config();
    assert_eq!(c.big_ciphertext_size(), 2049);
    assert_eq!(c.small_ciphertext_size(), 787);
    assert_eq!(c.register_alloc_size(), 2049 * 64);
    assert_eq!(c.ksk_alloc_size(), 2048 * 5 * 787);
    assert_eq!(c.bsk_alloc_size(), 786 * 2 * 2 * 2048 / 2);
    assert_eq!(c.lut_alloc_size(), 2 * 2048);
    assert_eq!(c.lut_registry_alloc_size(), LUTS_REGISTRY_SIZE * 4096);
    assert_eq!(LUTS_REGISTRY_SIZE, 76);
}

#[test]
fn vm_config_bsk_size_rounds_down() {
    let mut c = config();
    c.lwe_dim = 1;
    c.bsk_polynomial_size = 1;
    c.bsk_glwe_dim = 0;
    assert_eq!(c.bsk_alloc_size(), 0);
}

#[test]
fn ids_render() {
    assert_eq!(OpId(3).dump_to_string(), "@3");
    assert_eq!(OpId(42).dump_padded(4), "@0042");
    assert_eq!(OpId(12345).dump_padded(2), "@12345");
    assert_eq!(ValId(5).dump_to_string(), "%5");
    assert_eq!(ValId(5).dump_as(true), "%_5");
    assert_eq!(ValId(0).dump_as(false), "%0");
    assert_eq!(decimal_padded(7, 3), "007");
}

#[test]
fn ids_arithmetic_and_ranges() {
    assert_eq!(OpId(3).plus(4), OpId(7));
    assert_eq!(OpId(7).minus(4), OpId(3));
    assert_eq!(ValId(1).plus(1), ValId(2));
    assert_eq!(ValueNumber(9).minus(9), ValueNumber(0));
    assert_eq!(OpId::range(2, 5), vec![OpId(2), OpId(3), OpId(4)]);
    assert_eq!(ValId::range(4, 4), Vec::<ValId>::new());
}

#[test]
fn bytecode_dump() {
    let add = VmByteCode::ADD { id: 3, dst: 1, src1: 2, src2: 0 };
    assert_eq!(add.dump_to_string(), "ADD id=3 dst=1 src1=2 src2=0");
    let pbs = VmByteCode::PBS_ML2 { id: 10, dst1: 4, dst2: 5, src: 6, lut: 17 };
    assert_eq!(pbs.dump_to_string(), "PBS_ML2 id=10 dst1=4 dst2=5 src=6 lut=17");
    let st = VmByteCode::ST { id: 0, dst_id: 2, dst_blk: 3, src: 9 };
    assert_eq!(st.dump_to_string(), "ST id=0 dst_id=2 dst_blk=3 src=9");
    let adds = VmByteCode::ADDS { id: 1, dst: 2, src: 3, s_id: 4, s_blk: 5 };
    assert_eq!(adds.dump_to_string(), "ADDS id=1 dst=2 src=3 s_id=4 s_blk=5");
    let def = VmByteCode::DEF { id: 8, dst: 0, cst: 255 };
    assert_eq!(def.dump_to_string(), "DEF id=8 dst=0 cst=255");
    assert_eq!(VmTypeSystem::CtRegister.name(), "CtRegister");
}

#[test]
fn bytecode_register_operands() {
    let all = vec![
        VmByteCode::ADD { id: 1, dst: 2, src1: 3, src2: 4 },
        VmByteCode::SUB { id: 1, dst: 2, src1: 3, src2: 4 },
        VmByteCode::MAC { id: 1, dst: 2, src1: 3, src2: 4, cst: 5 },
        VmByteCode::ADDS { id: 1, dst: 2, src: 3, s_id: 4, s_blk: 5 },
        VmByteCode::SUBS { id: 1, dst: 2, src: 3, s_id: 4, s_blk: 5 },
        VmByteCode::SSUB { id: 1, dst: 2, src: 3, s_id: 4, s_blk: 5 },
        VmByteCode::MULS { id: 1, dst: 2, src: 3, s_id: 4, s_blk: 5 },
        VmByteCode::ADDC { id: 1, dst: 2, src: 3, cst: 5 },
        VmByteCode::SUBC { id: 1, dst: 2, src: 3, cst: 5 },
        VmByteCode::CSUB { id: 1, dst: 2, src: 3, cst: 5 },
        VmByteCode::MULC { id: 1, dst: 2, src: 3, cst: 5 },
        VmByteCode::LD { id: 1, dst: 2, src_id: 4, src_blk: 5 },
        VmByteCode::ST { id: 1, dst_id: 4, dst_blk: 5, src: 3 },
        VmByteCode::KS { id: 1, dst: 2, src: 3 },
        VmByteCode::PBS { id: 1, dst: 2, src: 3, lut: 5 },
        VmByteCode::PBS_ML2 { id: 1, dst1: 2, dst2: 6, src: 3, lut: 5 },
        VmByteCode::DEF { id: 1, dst: 2, cst: 5 },
    ];
    for b in all.iter() {
        assert_eq!(b.get_id(), 1);
        assert_eq!(b.get_dst1().is_none(), matches!(b, VmByteCode::ST { .. }));
        assert_eq!(b.get_dst2().is_some(), matches!(b, VmByteCode::PBS_ML2 { .. }));
        assert_eq!(
            b.get_src1().is_none(),
            matches!(b, VmByteCode::LD { .. } | VmByteCode::DEF { .. })
        );
        assert_eq!(
            b.get_src2().is_some(),
            matches!(b, VmByteCode::ADD { .. } | VmByteCode::SUB { .. } | VmByteCode::MAC { .. })
        );
    }
    let mac = VmByteCode::MAC { id: 1, dst: 2, src1: 3, src2: 4, cst: 5 };
    assert_eq!(mac.get_dst1(), Some(2));
    assert_eq!(mac.get_src1(), Some(3));
    assert_eq!(mac.get_src2(), Some(4));
    let pbs = VmByteCode::PBS_ML2 { id: 1, dst1: 2, dst2: 6, src: 3, lut: 5 };
    assert_eq!(pbs.get_dst1(), Some(2));
    assert_eq!(pbs.get_dst2(), Some(6));
    assert_eq!(pbs.get_src1(), Some(3));
}

#[test]
fn html_escape_replaces_markup() {
    assert_eq!(html_escape("<a href=\"x\">'&'</a>"), "&lt;a href=&quot;x&quot;&gt;&#39;&amp;&#39;&lt;/a&gt;");
    assert_eq!(html_escape("plain text"), "plain text");
    assert_eq!(html_escape(""), "");
}

#[test]
fn html_escape_splits_over_concatenation() {
    let a = "a<b";
    let b = "&c>";
    assert_eq!(html_escape("a<b&c>"), format!("{}{}", html_escape(a), html_escape(b)));
    assert!(!html_escape("<>&\"'").contains('<'));
}

#[test]
fn string_helpers() {
    assert_eq!(trim("  x y \t"), "x y");
    assert_eq!(trim("\u{3000}z\u{a0}"), "z");
    assert_eq!(split("a,,b", ','), vec!["a".to_string(), "".to_string(), "b".to_string()]);
    assert_eq!(split("", ','), vec!["".to_string()]);
    assert_eq!(strip_prefix("--bits=8", "--bits="), Some("8".to_string()));
    assert_eq!(strip_prefix("--bit", "--bits="), None);
    assert!(contains("cmpgte", "gt"));
    assert!(contains("add", ""));
    assert!(!contains("sub", "subs"));
}

#[test]
fn parse_u16_accepts_what_std_accepts() {
    assert_eq!(parse_u16("65535"), Some(65535));
    assert_eq!(parse_u16("65536"), None);
    assert_eq!(parse_u16("+12"), Some(12));
    assert_eq!(parse_u16("007"), Some(7));
    assert_eq!(parse_u16(""), None);
    assert_eq!(parse_u16("+"), None);
    assert_eq!(parse_u16("-1"), None);
    assert_eq!(parse_u16("1 2"), None);
    for s in ["0", "8", "128", "+5", "70000", "x", "12a"] {
        assert_eq!(parse_u16(s), s.parse::<u16>().ok());
    }
}

#[test]
fn iop_names() {
    assert_eq!(Iop::from_name("ADD"), Some(Iop::Add));
    assert_eq!(Iop::from_name("CMP_GTE"), Some(Iop::CmpGte));
    assert_eq!(Iop::from_name("TRAIL1"), Some(Iop::TrailingOnes));
    assert_eq!(Iop::from_name("add"), None);
    assert_eq!(Iop::from_name("ERC_20"), None);
    assert_eq!("MOD".parse::<Iop>(), Ok(Iop::Mod));
    assert_eq!("nope".parse::<Iop>(), Err(()));
    assert_eq!(Iop::CountZeros.mnemonic(), "COUNT0");
    assert_eq!(Iop::IfThenZero.debug_name(), "IfThenZero");
    assert_eq!(Iop::IfThenZero.lowercase_name(), "ifthenzero");
    assert_eq!(Iop::all().len(), 20);
}

#[test]
fn iop_mnemonic_roundtrip() {
    for iop in Iop::all() {
        assert_eq!(Iop::from_name(iop.mnemonic()), Some(iop));
        assert_eq!(iop.debug_name().to_lowercase(), iop.lowercase_name());
        assert_eq!(format!("{:?}", iop), iop.debug_name());
    }
}

#[test]
fn board_identifiers_render() {
    assert_eq!(HpuId(3).dump_to_string(), "HPU_3");
    assert_eq!(HpuId(0).dump_to_string(), "HPU_0");
    assert_eq!(TransferId(17).dump_to_string(), "#!17");
    assert_eq!(HpuTypeSystem::CtHeap.name(), "CtHeap");
    assert_eq!(LayoutTypeSystem::Value.name(), "Value");
}

#[test]
fn locality_placement() {
    let on = HpuLocality::OnHpu(HpuId(1));
    assert!(on.is_on(&HpuId(1)));
    assert!(!on.is_on(&HpuId(2)));
    let transfer = HpuLocality::Transfer { from: HpuId(0), to: HpuId(3) };
    assert!(transfer.is_on(&HpuId(0)));
    assert!(transfer.is_on(&HpuId(3)));
    assert!(!transfer.is_on(&HpuId(1)));
    let shared = HpuLocality::Shared(vec![HpuId(2), HpuId(4)]);
    assert!(shared.is_on(&HpuId(4)));
    assert!(!shared.is_on(&HpuId(3)));
    assert!(!HpuLocality::Shared(vec![]).is_on(&HpuId(0)));
}

#[test]
fn erc7984_carry_strategy() {
    assert_eq!(carry_propagation(2), Some(CarryPropagation::RippleCarry));
    assert_eq!(carry_propagation(7), Some(CarryPropagation::RippleCarry));
    assert_eq!(carry_propagation(8), Some(CarryPropagation::KoggeStone { par_w: 1 }));
    assert_eq!(carry_propagation(15), Some(CarryPropagation::KoggeStone { par_w: 1 }));
    assert_eq!(carry_propagation(16), Some(CarryPropagation::KoggeStone { par_w: 7 }));
    assert_eq!(carry_propagation(24), Some(CarryPropagation::KoggeStone { par_w: 12 }));
    assert_eq!(carry_propagation(255), Some(CarryPropagation::KoggeStone { par_w: 12 }));
    assert_eq!(carry_propagation(256), None);
}

#[test]
fn erc7984_transfer_arithmetic() {
    // The circuit subtracts in two's complement: from + !moved + 1, on n-bit words.
    let n = 16u32;
    let mask: u64 = (1 << n) - 1;
    let cases: [(u64, u64, u64); 4] = [(100, 5, 30), (10, 65530, 30), (5, 0, 6), (0, 7, 0)];
    for (from, to, amount) in cases {
        let moved = if from >= amount { amount } else { 0 };
        let new_from = (from + (mask - moved) + 1) & mask;
        let new_to = (to + moved) & mask;
        if from >= amount {
            assert_eq!(new_from, from - amount);
            assert_eq!(new_to, (to + amount) & mask);
        } else {
            assert_eq!((new_from, new_to), (from, to));
        }
    }
}
