use byteorder::{BigEndian, ReadBytesExt};
use ch8_isa::codegen::{Binary, CodeGen, Instruction, CAPACITY};
use ch8_isa::data::{CallData, DrawData, Register};
use ch8_isa::error::{BinaryError, BinaryErrorType};

#[test]
fn test_binary_creation() {
    let mut rom = Binary::new("test_tmp.c8", false).unwrap();

    let i1 = Instruction::CLS;
    let i2 = Instruction::CALL(CallData::new(0x0FC4));
    let i3 = Instruction::DRAW(DrawData::new(Register::V1, Register::V2, 0x5));

    rom.add_instruction(&i1).unwrap();
    rom.add_instruction(&i2).unwrap();
    rom.add_instruction(&i3).unwrap();
    rom.add_word(0xFC00).unwrap();
    rom.add_byte(0xAB).unwrap();

    rom.pad_to_even();
    let sz = rom.write_outcome(true).unwrap();
    assert_eq!(sz, 10);

    let mut file: &[u8] = rom.as_bytes();
    let mut word = file.read_u16::<BigEndian>().unwrap();
    assert_eq!(word, 0x00E0);
    word = file.read_u16::<BigEndian>().unwrap();
    assert_eq!(word, 0x2FC4);
    word = file.read_u16::<BigEndian>().unwrap();
    assert_eq!(word, 0xD125);
    word = file.read_u16::<BigEndian>().unwrap();
    assert_eq!(word, 0xFC00);
    word = file.read_u16::<BigEndian>().unwrap();
    assert_eq!(word, 0xAB00);
}

#[test]
fn words_are_stored_most_significant_byte_first() {
    let mut rom = Binary::new("rom.c8", false).unwrap();
    rom.add_word(0x1234).unwrap();
    assert_eq!(rom.as_bytes(), &[0x12u8, 0x34][..]);
    assert_eq!(rom.len(), 2);
}

#[test]
fn odd_image_is_padded_with_zero() {
    let mut rom = Binary::new("rom.c8", false).unwrap();
    rom.add_byte(0xAB).unwrap();
    rom.add_word(0x00E0).unwrap();
    assert_eq!(rom.len(), 3);
    rom.pad_to_even();
    assert_eq!(rom.len(), 4);
    assert_eq!(rom.as_bytes(), &[0xABu8, 0x00, 0xE0, 0x00][..]);
}

#[test]
fn even_image_is_not_padded() {
    let mut rom = Binary::new("rom.c8", false).unwrap();
    rom.pad_to_even();
    assert_eq!(rom.len(), 0);
    rom.add_byte(0x01).unwrap();
    rom.add_byte(0x02).unwrap();
    rom.pad_to_even();
    assert_eq!(rom.as_bytes(), &[0x01u8, 0x02][..]);
}

#[test]
fn instructions_concatenate_in_append_order() {
    let instrs = vec![
        Instruction::CALL(CallData::new(0x0ABC)),
        Instruction::RET,
        Instruction::CLS,
        Instruction::DRAW(DrawData::new(Register::VA, Register::VB, 0xC)),
    ];
    let mut rom = Binary::new("rom.c8", false).unwrap();
    let mut expected: Vec<u8> = Vec::new();
    for i in &instrs {
        rom.add_instruction(i).unwrap();
        expected.extend_from_slice(&i.gen_opcode().to_be_bytes());
    }
    rom.pad_to_even();
    assert_eq!(rom.as_bytes(), &expected[..]);
    assert_eq!(rom.as_bytes(), &[0x2Au8, 0xBC, 0x00, 0xEE, 0x00, 0xE0, 0xDA, 0xBC][..]);
    assert_eq!(rom.write_outcome(true).unwrap(), 8);
}

#[test]
fn existing_destination_is_refused() {
    let res = Binary::new("taken.c8", true);
    let err: BinaryError = match res {
        Ok(_) => panic!("an existing destination was accepted"),
        Err(e) => e,
    };
    assert_eq!(err.get_type(), BinaryErrorType::FileExists);
    assert_eq!(err.get_binary_name(), "taken.c8");
}

#[test]
fn failed_write_reports_file_error() {
    let mut rom = Binary::new("rom.c8", false).unwrap();
    rom.add_word(0x00E0).unwrap();
    let err = rom.write_outcome(false).unwrap_err();
    assert_eq!(err.get_type(), BinaryErrorType::FileError);
    assert_eq!(err.get_binary_name(), "rom.c8");
}

#[test]
fn full_binary_refuses_data() {
    let mut rom = Binary::new("big.c8", false).unwrap();
    let mut added: u32 = 0;
    while rom.add_word(0xFFFF).is_ok() {
        added += 1;
    }
    assert_eq!(added, (CAPACITY / 2) as u32);
    assert_eq!(rom.len(), CAPACITY);
    let err = rom.add_word(0x1234).unwrap_err();
    assert_eq!(err.get_type(), BinaryErrorType::DataError);
    assert_eq!(err.get_binary_name(), "big.c8");
    let err = rom.add_byte(0x12).unwrap_err();
    assert_eq!(err.get_type(), BinaryErrorType::DataError);
    let err = rom.add_instruction(&Instruction::CLS).unwrap_err();
    assert_eq!(err.get_type(), BinaryErrorType::DataError);
    assert_eq!(rom.len(), CAPACITY);
    rom.pad_to_even();
    assert_eq!(rom.len(), CAPACITY);
}

#[test]
fn byte_fills_the_last_free_place() {
    let mut rom = Binary::new("big.c8", false).unwrap();
    for _ in 0..(CAPACITY / 2 - 1) {
        rom.add_word(0x0101).unwrap();
    }
    rom.add_byte(0x02).unwrap();
    assert_eq!(rom.len(), CAPACITY - 1);
    assert!(rom.add_word(0x0303).is_err());
    rom.pad_to_even();
    assert_eq!(rom.len(), CAPACITY);
    assert_eq!(rom.as_bytes()[(CAPACITY - 1) as usize], 0);
    assert_eq!(rom.as_bytes()[(CAPACITY - 2) as usize], 0x02);
}

#[test]
fn error_kinds_are_described() {
    assert_eq!(
        BinaryErrorType::FileExists.description(),
        "A binary already exists with the given name"
    );
    assert_eq!(BinaryErrorType::DataError.description(), "Error writing data into binary");
    assert_eq!(BinaryErrorType::FileError.description(), "Error writing binary to disk");
    let e = BinaryError::new(BinaryErrorType::DataError, "x.c8");
    assert_eq!(e.get_type(), BinaryErrorType::DataError);
    assert_eq!(e.get_binary_name(), "x.c8");
}
