use vips::descriptor::{Argument, CallDescriptor, OptionalParameter, Positional};
use vips::registry::AbiType;
use vips::text::CText;
use vips::value::ArgValue;

fn name(text: &str) -> CText {
    CText::from_str(text).unwrap()
}

fn is_name(argument: &Argument, expected: &str) -> bool {
    match argument {
        Argument::Name(n) => n.as_bytes().as_slice() == expected.as_bytes(),
        _ => false,
    }
}

#[test]
fn descriptor_without_optionals_is_prefix_and_sentinel() {
    let positional = vec![
        Positional::Value(ArgValue::Pointer(0x1000)),
        Positional::OutputSlot,
        Positional::Value(ArgValue::Int32(7)),
    ];
    let optional: Vec<OptionalParameter> = Vec::new();
    let d = CallDescriptor::build(&positional, &optional);
    assert_eq!(d.len(), 4);
    assert_eq!(d.fixed_count(), 3);
    assert_eq!(d.optional_count(), 0);
    let a = d.arguments();
    assert!(matches!(a[0], Argument::Value(ArgValue::Pointer(0x1000))));
    assert!(matches!(a[1], Argument::OutputSlot));
    assert!(matches!(a[2], Argument::Value(ArgValue::Int32(7))));
    assert!(matches!(a[3], Argument::Sentinel));
}

#[test]
fn descriptor_length_counts_two_per_present_optional() {
    let positional = vec![Positional::Value(ArgValue::Pointer(1)), Positional::OutputSlot];
    let optional = vec![
        OptionalParameter { name: name("a"), value: Some(ArgValue::Int32(1)) },
        OptionalParameter { name: name("b"), value: None },
        OptionalParameter { name: name("c"), value: Some(ArgValue::Bool(true)) },
        OptionalParameter { name: name("d"), value: Some(ArgValue::Enum(3)) },
    ];
    let d = CallDescriptor::build(&positional, &optional);
    assert_eq!(d.len(), 2 + 2 * 3 + 1);
    assert_eq!(d.optional_count(), 3);
    let a = d.arguments();
    assert!(is_name(&a[2], "a"));
    assert!(matches!(a[3], Argument::Value(ArgValue::Int32(1))));
    assert!(is_name(&a[4], "c"));
    assert!(matches!(a[5], Argument::Value(ArgValue::Bool(true))));
    assert!(is_name(&a[6], "d"));
    assert!(matches!(a[7], Argument::Value(ArgValue::Enum(3))));
    assert!(matches!(a[8], Argument::Sentinel));
}

#[test]
fn descriptor_types_follow_the_registry() {
    let positional = vec![Positional::Value(ArgValue::Pointer(1)), Positional::OutputSlot];
    let optional = vec![
        OptionalParameter { name: name("i"), value: Some(ArgValue::Int32(-1)) },
        OptionalParameter { name: name("u"), value: Some(ArgValue::UInt32(1)) },
        OptionalParameter { name: name("b"), value: Some(ArgValue::Bool(false)) },
        OptionalParameter { name: name("t"), value: Some(ArgValue::Text(name("srgb"))) },
        OptionalParameter { name: name("e"), value: Some(ArgValue::Enum(2)) },
        OptionalParameter { name: name("p"), value: Some(ArgValue::Pointer(9)) },
    ];
    let d = CallDescriptor::build(&positional, &optional);
    let types = d.types();
    assert_eq!(
        types,
        vec![
            AbiType::Pointer,
            AbiType::Pointer,
            AbiType::Pointer,
            AbiType::SInt32,
            AbiType::Pointer,
            AbiType::UInt32,
            AbiType::Pointer,
            AbiType::UInt8,
            AbiType::Pointer,
            AbiType::Pointer,
            AbiType::Pointer,
            AbiType::UInt32,
            AbiType::Pointer,
            AbiType::Pointer,
            AbiType::Pointer,
        ]
    );
}

fn same_entries(a: &CallDescriptor, b: &CallDescriptor) -> bool {
    format!("{:?}", a.arguments()) == format!("{:?}", b.arguments())
}

#[test]
fn absent_optionals_add_nothing() {
    let positional = vec![Positional::Value(ArgValue::Pointer(1)), Positional::OutputSlot];
    let with_absent = vec![
        OptionalParameter { name: name("a"), value: None },
        OptionalParameter { name: name("b"), value: Some(ArgValue::UInt32(2)) },
        OptionalParameter { name: name("c"), value: None },
        OptionalParameter { name: name("d"), value: Some(ArgValue::Text(name("x"))) },
        OptionalParameter { name: name("e"), value: None },
    ];
    let present_only = vec![
        OptionalParameter { name: name("b"), value: Some(ArgValue::UInt32(2)) },
        OptionalParameter { name: name("d"), value: Some(ArgValue::Text(name("x"))) },
    ];
    let a = CallDescriptor::build(&positional, &with_absent);
    let b = CallDescriptor::build(&positional, &present_only);
    assert_eq!(a.len(), 2 + 2 * 2 + 1);
    assert!(same_entries(&a, &b));
    assert_eq!(a.fixed_count(), b.fixed_count());
    let all_absent = vec![
        OptionalParameter { name: name("a"), value: None },
        OptionalParameter { name: name("c"), value: None },
    ];
    let c = CallDescriptor::build(&positional, &all_absent);
    let d = CallDescriptor::build(&positional, &Vec::new());
    assert_eq!(c.len(), 3);
    assert!(same_entries(&c, &d));
}

#[test]
fn positional_prefix_is_kept_whatever_follows() {
    let positional = vec![
        Positional::OutputSlot,
        Positional::Value(ArgValue::Bool(true)),
        Positional::Value(ArgValue::Text(name("t"))),
    ];
    let optional =
        vec![OptionalParameter { name: name("k"), value: Some(ArgValue::Pointer(3)) }];
    let d = CallDescriptor::build(&positional, &optional);
    assert_eq!(d.fixed_count(), 3);
    let a = d.arguments();
    assert!(matches!(a[0], Argument::OutputSlot));
    assert!(matches!(a[1], Argument::Value(ArgValue::Bool(true))));
    assert!(matches!(&a[2], Argument::Value(ArgValue::Text(t)) if t.as_bytes().as_slice() == b"t"));
    assert!(is_name(&a[3], "k"));
    assert!(matches!(a[4], Argument::Value(ArgValue::Pointer(3))));
    assert!(matches!(a[5], Argument::Sentinel));
    assert_eq!(a.iter().filter(|x| matches!(x, Argument::Sentinel)).count(), 1);
}

#[test]
fn empty_call_is_the_sentinel_alone() {
    let d = CallDescriptor::build(&Vec::new(), &Vec::new());
    assert_eq!(d.len(), 1);
    assert_eq!(d.fixed_count(), 0);
    assert_eq!(d.optional_count(), 0);
    assert!(matches!(d.arguments()[0], Argument::Sentinel));
}
