use computed_style::{
    BoxDecorationBreak, BoxSizing, Clear, ColumnFill, Encoded, Float, Keyword,
};

#[test]
fn encode_and_decode_are_inverse() {
    for keyword in [Float::NoFloat, Float::Left, Float::Right, Float::InlineStart, Float::InlineEnd]
    {
        assert_eq!(Float::decode(keyword.encode()), Some(keyword));
    }
    for keyword in [
        Clear::NoClear,
        Clear::Left,
        Clear::Right,
        Clear::Both,
        Clear::InlineStart,
        Clear::InlineEnd,
    ] {
        assert_eq!(Clear::decode(keyword.encode()), Some(keyword));
    }
    for keyword in [ColumnFill::Balance, ColumnFill::Auto] {
        assert_eq!(ColumnFill::decode(keyword.encode()), Some(keyword));
    }
    for keyword in [BoxSizing::ContentBox, BoxSizing::BorderBox] {
        assert_eq!(BoxSizing::decode(keyword.encode()), Some(keyword));
    }
}

#[test]
fn codes_are_the_native_numbers() {
    assert_eq!(Float::NoFloat.encode(), 0);
    assert_eq!(Float::Left.encode(), 1);
    assert_eq!(Float::InlineEnd.encode(), 4);
    assert_eq!(Clear::Both.encode(), 3);
    assert_eq!(BoxDecorationBreak::Slice.encode(), 0);
    assert_eq!(BoxDecorationBreak::Clone.encode(), 1);
}

#[test]
fn unknown_code_decodes_to_nothing() {
    assert_eq!(Float::decode(5), None);
    assert_eq!(Float::decode(255), None);
    assert_eq!(Clear::decode(6), None);
    assert_eq!(BoxDecorationBreak::decode(2), None);
    assert_eq!(ColumnFill::decode(2), None);
    assert_eq!(BoxSizing::decode(200), None);
}

#[test]
fn every_code_decodes_to_its_keyword_or_nothing() {
    for code in 0..=255u8 {
        match Clear::decode(code) {
            Some(keyword) => assert_eq!(keyword.encode(), code),
            None => assert!(code >= 6),
        }
    }
}

#[test]
fn stored_keyword_reads_back() {
    let stored = Encoded::new(Float::Right);
    assert_eq!(stored.get(), Float::Right);
    assert_eq!(stored.code(), 2);
    let copy = stored;
    assert_eq!(copy.get(), Float::Right);
    assert_eq!(stored.clone().code(), 2);
}

#[test]
fn stored_keyword_from_a_code() {
    let stored = Encoded::<Clear>::from_code(3);
    assert!(stored.is_some());
    assert_eq!(stored.unwrap().get(), Clear::Both);
    assert_eq!(stored.unwrap().code(), 3);
    assert!(Encoded::<Clear>::from_code(6).is_none());
    assert!(Encoded::<BoxDecorationBreak>::from_code(2).is_none());
    assert!(Encoded::<BoxDecorationBreak>::from_code(1).is_some());
}
