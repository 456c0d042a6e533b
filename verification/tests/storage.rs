use vips::descriptor::{Argument, CallDescriptor, OptionalParameter, Positional};
use vips::image::{result, result_buffer, result_status};
use vips::error::VipsError;
use vips::options::VipsThumbnailOptions;
use vips::registry::AbiType;
use vips::storage::{cell_of, Cell};
use vips::text::{name_text, CText};
use vips::value::ArgValue;

fn kind(cell: &Cell) -> AbiType {
    match cell {
        Cell::Int(_) => AbiType::SInt32,
        Cell::UInt(_) => AbiType::UInt32,
        Cell::Byte(_) => AbiType::UInt8,
        Cell::Address(_) | Cell::Text(_) | Cell::OutputSlot | Cell::Null => AbiType::Pointer,
    }
}

#[test]
fn flag_is_a_byte_when_fixed_and_an_int_in_the_tail() {
    let flag = Argument::Value(ArgValue::Bool(true));
    assert!(matches!(cell_of(&flag, false), Cell::Byte(1)));
    assert!(matches!(cell_of(&flag, true), Cell::Int(1)));
    let flag = Argument::Value(ArgValue::Bool(false));
    assert!(matches!(cell_of(&flag, false), Cell::Byte(0)));
    assert!(matches!(cell_of(&flag, true), Cell::Int(0)));
}

#[test]
fn every_other_entry_is_stored_as_what_it_is() {
    for variadic in [false, true] {
        assert!(matches!(
            cell_of(&Argument::Value(ArgValue::Int32(-7)), variadic),
            Cell::Int(-7)
        ));
        assert!(matches!(
            cell_of(&Argument::Value(ArgValue::UInt32(7)), variadic),
            Cell::UInt(7)
        ));
        assert!(matches!(cell_of(&Argument::Value(ArgValue::Enum(3)), variadic), Cell::UInt(3)));
        assert!(matches!(
            cell_of(&Argument::Value(ArgValue::Pointer(0x44)), variadic),
            Cell::Address(0x44)
        ));
        let text = Argument::Value(ArgValue::Text(CText::from_str("srgb").unwrap()));
        assert!(
            matches!(cell_of(&text, variadic), Cell::Text(t) if t.as_bytes().as_slice() == b"srgb")
        );
        let name = Argument::Name(CText::from_str("size").unwrap());
        assert!(
            matches!(cell_of(&name, variadic), Cell::Text(t) if t.as_bytes().as_slice() == b"size")
        );
        assert!(matches!(cell_of(&Argument::OutputSlot, variadic), Cell::OutputSlot));
        assert!(matches!(cell_of(&Argument::Sentinel, variadic), Cell::Null));
    }
}

#[test]
fn cells_have_the_types_the_call_is_described_with() {
    let positional = vec![
        Positional::Value(ArgValue::Pointer(1)),
        Positional::OutputSlot,
        Positional::Value(ArgValue::Bool(true)),
    ];
    let optional = vec![
        OptionalParameter { name: name_text("flag"), value: Some(ArgValue::Bool(true)) },
        OptionalParameter { name: name_text("skipped"), value: None },
        OptionalParameter { name: name_text("n"), value: Some(ArgValue::Enum(2)) },
    ];
    let d = CallDescriptor::build(&positional, &optional);
    let cells = d.cells();
    assert_eq!(cells.len(), d.len());
    let kinds: Vec<AbiType> = cells.iter().map(kind).collect();
    assert_eq!(kinds, d.call_types());
    assert!(matches!(cells[0], Cell::Address(1)));
    assert!(matches!(cells[1], Cell::OutputSlot));
    assert!(matches!(cells[2], Cell::Byte(1)));
    assert!(matches!(&cells[3], Cell::Text(t) if t.as_bytes().as_slice() == b"flag"));
    assert!(matches!(cells[4], Cell::Int(1)));
    assert!(matches!(&cells[5], Cell::Text(t) if t.as_bytes().as_slice() == b"n"));
    assert!(matches!(cells[6], Cell::UInt(2)));
    assert!(matches!(cells[7], Cell::Null));
}

#[test]
fn thumbnail_cells_match_its_description() {
    let img = result(0x9000, String::new()).unwrap();
    let mut options = VipsThumbnailOptions::new();
    options.auto_rotate = Some(true);
    options.export_profile = Some("p3".to_string());
    let d = img.thumbnail(64, options).unwrap();
    let cells = d.cells();
    let kinds: Vec<AbiType> = cells.iter().map(kind).collect();
    assert_eq!(kinds, d.call_types());
    assert!(matches!(cells[0], Cell::Address(0x9000)));
    assert!(matches!(cells[2], Cell::Int(64)));
    assert!(matches!(cells[4], Cell::Int(1)));
    assert!(matches!(&cells[6], Cell::Text(t) if t.as_bytes().as_slice() == b"p3"));
}

#[test]
fn name_may_hold_any_byte_but_zero() {
    assert_eq!(name_text("height").as_bytes().as_slice(), b"height");
    assert_eq!(name_text("größe").as_bytes().as_slice(), "größe".as_bytes());
    assert_eq!(name_text("").as_bytes().len(), 0);
}

#[test]
fn status_alone_decides_a_call_that_makes_no_image() {
    assert!(result_status(0, "unused".to_string()).is_ok());
    for ret in [-1, 1, 2, i32::MIN, i32::MAX] {
        match result_status(ret, "save failed".to_string()) {
            Err(VipsError::Native { message }) => assert_eq!(message, "save failed"),
            other => panic!("unexpected: {:?}", other),
        }
    }
}

#[test]
fn buffer_needs_both_a_zero_status_and_an_address() {
    assert_eq!(result_buffer(0x77, 0, "unused".to_string()).unwrap(), 0x77);
    assert_eq!(result_buffer(usize::MAX, 0, String::new()).unwrap(), usize::MAX);
    for (ptr, ret) in [(0usize, 0i32), (0x77, 1), (0x77, -1), (0, 5)] {
        match result_buffer(ptr, ret, "no buffer".to_string()) {
            Err(VipsError::Native { message }) => assert_eq!(message, "no buffer"),
            other => panic!("unexpected: {:?}", other),
        }
    }
}
