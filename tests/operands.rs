use ch8_isa::codegen::CodeGen;
use ch8_isa::data::{
    AddData, AndData, BcdData, CallData, ClsData, DrawData, GdlData, JmpData, JpcData, KeyData,
    MovData, OrData, RandData, RdpData, Register, RetData, RldData, SchData, SdlData, ShlData,
    ShrData, SkipData, SkipType, SndData, SubData, SubnData, XorData, SKIPType,
};

#[test]
fn add_data_test_constants_are_masked() {
    let d = AddData::with_constant(Register::V0, 0xFFFB);
    assert_eq!(d.get_second_cst().unwrap(), 0xFB);
}

#[test]
fn add_data_test_opcode_gen() {
    let d1 = AddData::with_register(Register::V1, Register::V2);
    assert_eq!(d1.gen_opcode(), 0x8124);
    let d2 = AddData::with_register(Register::I, Register::V1);
    assert_eq!(d2.gen_opcode(), 0xF11E);
    let d3 = AddData::with_constant(Register::V1, 0xFC);
    assert_eq!(d3.gen_opcode(), 0x71FC);
}

#[test]
fn and_data_test_opcode_gen() {
    let andd = AndData::new(Register::V1, Register::V2);
    assert_eq!(andd.gen_opcode(), 0x8122);
}

#[test]
fn bcd_data_test_opcode_gen() {
    let bcdd = BcdData::new(Register::V1);
    assert_eq!(bcdd.gen_opcode(), 0xF133);
}

#[test]
fn call_data_test_address_is_masked() {
    let data = CallData::new(0xFFFF);
    assert_eq!(data.get_addr(), 0x0FFF);
}

#[test]
fn call_data_test_opcode_gen() {
    let data = CallData::new(0x0CCC);
    assert_eq!(data.gen_opcode(), 0x2CCC);
}

#[test]
fn test_height_is_masked() {
    let drawd = DrawData::new(Register::V1, Register::V2, 0xFB);
    assert_eq!(drawd.get_height(), 0xB);
}

#[test]
fn draw_data_test_opcode_gen() {
    let drawd = DrawData::new(Register::V1, Register::V2, 0x5);
    assert_eq!(drawd.gen_opcode(), 0xD125);
}

#[test]
fn jmp_data_test_address_is_masked() {
    let data = JmpData::new(0xFFFF, false);
    assert_eq!(data.get_addr(), 0x0FFF);
}

#[test]
fn jmp_data_test_opcode_gen() {
    let offset = JmpData::new(0x0CCC, true);
    let no_offset = JmpData::new(0x0CCC, false);
    assert_eq!(offset.gen_opcode(), 0xBCCC);
    assert_eq!(no_offset.gen_opcode(), 0x1CCC);
}

#[test]
fn jpc_data_test_address_is_masked() {
    let data = JpcData::new(0xFFFF);
    assert_eq!(data.get_addr(), 0x0FFF);
}

#[test]
fn jpc_data_test_opcode_gen() {
    let jpd = JpcData::new(0x0CCC);
    assert_eq!(jpd.gen_opcode(), 0xBCCC);
}

#[test]
fn mov_data_test_constants_are_masked() {
    let d1 = MovData::with_constant(Register::I, 0xFFFF);
    assert_eq!(d1.get_src_cst().unwrap(), 0x0FFF);
    let d2 = MovData::with_constant(Register::V0, 0xFFFF);
    assert_eq!(d2.get_src_cst().unwrap(), 0x00FF);
}

#[test]
fn mov_data_test_opcode_gen() {
    let m1 = MovData::with_register(Register::V1, Register::V2);
    assert_eq!(m1.gen_opcode(), 0x8120);
    let m2 = MovData::with_constant(Register::V1, 0xFC);
    assert_eq!(m2.gen_opcode(), 0x61FC);
    let m3 = MovData::with_constant(Register::I, 0x0FC1);
    assert_eq!(m3.gen_opcode(), 0xAFC1);
}

#[test]
fn or_data_test_opcode_gen() {
    let ord = OrData::new(Register::V1, Register::V2);
    assert_eq!(ord.gen_opcode(), 0x8121);
}

#[test]
fn rand_data_test_opcode_gen() {
    let randd = RandData::new(Register::V1, 0xFC);
    assert_eq!(randd.gen_opcode(), 0xC1FC);
}

#[test]
fn test_register_to_id() {
    assert_eq!(Register::I.to_id(), 0x10);
    assert_eq!(Register::V0.to_id(), 0x0);
    assert_eq!(Register::V1.to_id(), 0x1);
    assert_eq!(Register::V2.to_id(), 0x2);
    assert_eq!(Register::V3.to_id(), 0x3);
    assert_eq!(Register::V4.to_id(), 0x4);
    assert_eq!(Register::V5.to_id(), 0x5);
    assert_eq!(Register::V6.to_id(), 0x6);
    assert_eq!(Register::V7.to_id(), 0x7);
    assert_eq!(Register::V8.to_id(), 0x8);
    assert_eq!(Register::V9.to_id(), 0x9);
    assert_eq!(Register::VA.to_id(), 0xA);
    assert_eq!(Register::VB.to_id(), 0xB);
    assert_eq!(Register::VC.to_id(), 0xC);
    assert_eq!(Register::VD.to_id(), 0xD);
    assert_eq!(Register::VE.to_id(), 0xE);
    assert_eq!(Register::VF.to_id(), 0xF);
}

#[test]
fn rld_data_test_opcode_gen() {
    let rldd = RldData::new(Register::V1);
    assert_eq!(rldd.gen_opcode(), 0xF165);
}

#[test]
fn sch_data_test_opcode_gen() {
    let schd = SchData::new(Register::V1);
    assert_eq!(schd.gen_opcode(), 0xF129);
}

#[test]
fn sdl_data_test_opcode_gen() {
    let sdld = SdlData::new(Register::V1);
    assert_eq!(sdld.gen_opcode(), 0xF115);
}

#[test]
fn shl_data_test_opcode_gen() {
    let shld = ShlData::new(Register::V1);
    assert_eq!(shld.gen_opcode(), 0x811E);
}

#[test]
fn shr_data_test_opcode_gen() {
    let shrd = ShrData::new(Register::V1);
    assert_eq!(shrd.gen_opcode(), 0x8116);
}

#[test]
fn skip_data_test_opcode_gen() {
    let sk1 = SkipData::with_constant(Register::V1, 0xFF, SkipType::Equals);
    assert_eq!(sk1.gen_opcode(), 0x31FF);
    let sk2 = SkipData::with_constant(Register::V1, 0xFF, SkipType::NotEquals);
    assert_eq!(sk2.gen_opcode(), 0x41FF);
    let sk3 = SkipData::with_register(Register::V1, Register::V2, SkipType::Equals);
    assert_eq!(sk3.gen_opcode(), 0x5120);
    let sk4 = SkipData::with_register(Register::V1, Register::V2, SkipType::NotEquals);
    assert_eq!(sk4.gen_opcode(), 0x9120);
    let sk5 = SkipData::with_key(Register::V1, SkipType::KeyDown);
    assert_eq!(sk5.gen_opcode(), 0xE19E);
    let sk6 = SkipData::with_key(Register::V1, SkipType::KeyUp);
    assert_eq!(sk6.gen_opcode(), 0xE1A1);
}

#[test]
fn sub_data_test_opcode_gen() {
    let subd = SubData::new(Register::V1, Register::V2);
    assert_eq!(subd.gen_opcode(), 0x8125);
}

#[test]
fn subn_data_test_opcode_gen() {
    let subnd = SubnData::new(Register::V1, Register::V2);
    assert_eq!(subnd.gen_opcode(), 0x8127);
}

#[test]
fn xor_data_test_opcode_gen() {
    let xord = XorData::new(Register::V1, Register::V2);
    assert_eq!(xord.gen_opcode(), 0x8123);
}

#[test]
fn timer_key_and_memory_opcodes() {
    assert_eq!(GdlData::new(Register::V3).gen_opcode(), 0xF307);
    assert_eq!(KeyData::new(Register::V4).gen_opcode(), 0xF40A);
    assert_eq!(SndData::new(Register::V5).gen_opcode(), 0xF518);
    assert_eq!(RdpData::new(Register::VF).gen_opcode(), 0xFF55);
    assert_eq!(SdlData::new(Register::V0).gen_opcode(), 0xF015);
}

#[test]
fn operandless_opcodes() {
    assert_eq!(ClsData::new().gen_opcode(), 0x00E0);
    assert_eq!(RetData::new().gen_opcode(), 0x00EE);
}

#[test]
fn register_nibbles_land_in_place() {
    assert_eq!(XorData::new(Register::VF, Register::VA).gen_opcode(), 0x8FA3);
    assert_eq!(DrawData::new(Register::VE, Register::V0, 0xF).gen_opcode(), 0xDE0F);
    assert_eq!(AddData::with_register(Register::I, Register::VC).gen_opcode(), 0xFC1E);
    assert_eq!(MovData::with_constant(Register::VB, 0x1234).gen_opcode(), 0x6B34);
    assert_eq!(SkipData::with_key(Register::VD, SKIPType::KeyDown).gen_opcode(), 0xED9E);
}

#[test]
fn masking_is_idempotent() {
    let once = MovData::with_constant(Register::I, 0xFFFF).get_src_cst().unwrap();
    let twice = MovData::with_constant(Register::I, once).get_src_cst().unwrap();
    assert_eq!(once, 0x0FFF);
    assert_eq!(twice, once);
    let once = AddData::with_constant(Register::V1, 0xFFFB).get_second_cst().unwrap();
    let twice = AddData::with_constant(Register::V1, once).get_second_cst().unwrap();
    assert_eq!(once, 0xFB);
    assert_eq!(twice, once);
    let once = DrawData::new(Register::V1, Register::V2, 0xFB).get_height();
    let twice = DrawData::new(Register::V1, Register::V2, once).get_height();
    assert_eq!(once, 0xB);
    assert_eq!(twice, once);
}

#[test]
fn constants_within_width_are_kept() {
    assert_eq!(CallData::new(0x0ABC).get_addr(), 0x0ABC);
    assert_eq!(JmpData::new(0x1ABC, true).get_addr(), 0x0ABC);
    assert_eq!(MovData::with_constant(Register::V2, 0x00AB).get_src_cst(), Some(0xAB));
    assert_eq!(MovData::with_register(Register::V2, Register::V3).get_src_cst(), None);
    assert_eq!(DrawData::new(Register::V1, Register::V2, 0x0).get_height(), 0x0);
}
