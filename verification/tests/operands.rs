use pdf_text::operand::MAX_WHOLE;
use pdf_text::text::joined_text;
use pdf_text::{Operand, OperandError, Operation, SCALE};

fn one_of_each() -> Vec<Operand> {
    vec![
        Operand::Number(42),
        Operand::ByteString(b"text".to_vec()),
        Operand::Name(b"F1".to_vec()),
        Operand::Array(vec![Operand::Number(1)]),
        Operand::Dictionary(vec![(b"Key".to_vec(), Operand::Number(1))]),
        Operand::Reference(3, 0),
        Operand::Boolean(true),
        Operand::Null,
    ]
}

#[test]
fn as_number_accepts_numbers_only() {
    let results: Vec<Result<i64, OperandError>> =
        one_of_each().iter().map(|o| o.as_number()).collect();
    let no = Err(OperandError::NotANumber);
    assert_eq!(results, vec![Ok(42), no, no, no, no, no, no, no]);
}

#[test]
fn as_number_keeps_extreme_values() {
    assert_eq!(Operand::Number(i64::MAX).as_number(), Ok(i64::MAX));
    assert_eq!(Operand::Number(i64::MIN).as_number(), Ok(i64::MIN));
    assert_eq!(Operand::Number(0).as_number(), Ok(0));
    assert_eq!(Operand::Number(-1).as_number(), Ok(-1));
}

#[test]
fn as_byte_string_accepts_byte_strings_only() {
    for (i, operand) in one_of_each().iter().enumerate() {
        if i == 1 {
            assert_eq!(operand.as_byte_string(), Ok(&b"text"[..]));
        } else {
            assert_eq!(operand.as_byte_string(), Err(OperandError::NotAByteString));
        }
    }
}

#[test]
fn as_array_accepts_arrays_only() {
    for (i, operand) in one_of_each().iter().enumerate() {
        if i == 3 {
            assert_eq!(operand.as_array(), Ok(&[Operand::Number(1)][..]));
        } else {
            assert_eq!(operand.as_array(), Err(OperandError::NotAnArray));
        }
    }
}

#[test]
fn text_decodes_byte_strings_only() {
    for (i, operand) in one_of_each().iter().enumerate() {
        if i == 1 {
            assert_eq!(operand.text(), Ok("text".to_string()));
        } else {
            assert_eq!(operand.text(), Err(OperandError::NotAByteString));
        }
    }
}

#[test]
fn text_of_empty_byte_string_is_empty() {
    assert_eq!(Operand::ByteString(vec![]).text(), Ok(String::new()));
}

#[test]
fn text_replaces_each_invalid_sequence() {
    assert_eq!(Operand::ByteString(vec![0xff]).text(), Ok("\u{fffd}".to_string()));
    assert_eq!(
        Operand::ByteString(vec![b'H', 0x80, b'i', 0xfe, 0xff]).text(),
        Ok("H\u{fffd}i\u{fffd}\u{fffd}".to_string())
    );
    assert_eq!(
        Operand::ByteString(vec![0xe4, 0xb8]).text(),
        Ok("\u{fffd}".to_string())
    );
}

#[test]
fn text_turns_bytes_into_characters() {
    assert_eq!(
        Operand::ByteString(vec![0xc3, 0xa9, 0xe4, 0xb8, 0x96]).text(),
        Ok("\u{e9}\u{4e16}".to_string())
    );
}

#[test]
fn joined_text_of_nothing_is_empty() {
    assert_eq!(joined_text(&[]), "");
}

#[test]
fn joined_text_concatenates_in_order() {
    let items = vec![
        Operand::ByteString(b"one ".to_vec()),
        Operand::Number(-250),
        Operand::ByteString(vec![]),
        Operand::ByteString(b"two".to_vec()),
        Operand::Null,
        Operand::ByteString(vec![0xff]),
    ];
    assert_eq!(joined_text(&items), "one two\u{fffd}");
}

#[test]
fn joined_text_does_not_look_into_nested_arrays() {
    let items = vec![
        Operand::Array(vec![Operand::ByteString(b"inner".to_vec())]),
        Operand::ByteString(b"outer".to_vec()),
    ];
    assert_eq!(joined_text(&items), "outer");
}

#[test]
fn from_integer_scales_by_the_unit() {
    assert_eq!(SCALE, 1000);
    assert_eq!(Operand::from_integer(0), Operand::Number(0));
    assert_eq!(Operand::from_integer(3), Operand::Number(3000));
    assert_eq!(Operand::from_integer(-12), Operand::Number(-12_000));
    assert_eq!(Operand::from_integer(612), Operand::Number(612_000));
}

#[test]
fn from_integer_is_exact_up_to_the_largest_whole() {
    assert_eq!(MAX_WHOLE, i64::MAX / 1000);
    assert_eq!(Operand::from_integer(MAX_WHOLE), Operand::Number(9_223_372_036_854_775_000));
    assert_eq!(Operand::from_integer(-MAX_WHOLE), Operand::Number(-9_223_372_036_854_775_000));
}

#[test]
fn from_integer_saturates_beyond_the_largest_whole() {
    assert_eq!(Operand::from_integer(MAX_WHOLE + 1), Operand::Number(i64::MAX));
    assert_eq!(Operand::from_integer(-MAX_WHOLE - 1), Operand::Number(i64::MIN));
    assert_eq!(Operand::from_integer(i64::MAX), Operand::Number(i64::MAX));
    assert_eq!(Operand::from_integer(i64::MIN), Operand::Number(i64::MIN));
}

#[test]
fn operand_reports_missing_positions() {
    let op = Operation::new("Td", vec![Operand::Number(1), Operand::Null]);
    assert_eq!(op.operand(0), Ok(&Operand::Number(1)));
    assert_eq!(op.operand(1), Ok(&Operand::Null));
    assert_eq!(op.operand(2), Err(OperandError::Missing));
    assert_eq!(op.operand(usize::MAX), Err(OperandError::Missing));
}

#[test]
fn number_at_tells_missing_from_wrong_kind() {
    let op = Operation::new("Td", vec![Operand::Number(-7), Operand::ByteString(b"8".to_vec())]);
    assert_eq!(op.number_at(0), Ok(-7));
    assert_eq!(op.number_at(1), Err(OperandError::NotANumber));
    assert_eq!(op.number_at(2), Err(OperandError::Missing));
}

#[test]
fn new_operation_holds_what_it_was_given() {
    let op = Operation::new("Tj", vec![Operand::ByteString(b"a".to_vec())]);
    assert_eq!(op.operator, "Tj");
    assert_eq!(op.operands, vec![Operand::ByteString(b"a".to_vec())]);
    let empty = Operation::new("", vec![]);
    assert_eq!(empty.operator, "");
    assert!(empty.operands.is_empty());
}

#[test]
fn clone_copies_nested_operands() {
    let nested = Operand::Array(vec![
        Operand::Number(-5),
        Operand::ByteString(b"s".to_vec()),
        Operand::Array(vec![Operand::Array(vec![]), Operand::Name(b"deep".to_vec())]),
        Operand::Dictionary(vec![
            (b"A".to_vec(), Operand::Reference(7, 1)),
            (b"B".to_vec(), Operand::Array(vec![Operand::Boolean(false), Operand::Null])),
        ]),
    ]);
    assert_eq!(nested.clone(), nested);
    for operand in one_of_each() {
        assert_eq!(operand.clone(), operand);
    }
}
