use jormungandr::scalars::{
    ChainLength, CursorError, ExternalProposalId, IndexCursor, InputValue, NonZero, PayloadType,
    PoolId, PublicKey, ScalarError, Slot, TimeOffsetSeconds, Value, VoteOptionRange, VotePlanCount,
    VotePlanId, VoteStatusCount, Weight,
};

fn text(s: &str) -> InputValue {
    InputValue::String(s.to_string())
}

#[test]
fn slot_is_a_number_of_32_bits() {
    assert_eq!(Slot::parse(&text("17")), Ok(Slot(17)));
    assert_eq!(Slot::parse(&text("4294967295")), Ok(Slot(u32::MAX)));
    assert_eq!(Slot::parse(&text("4294967296")), Err(ScalarError::Invalid));
    assert_eq!(Slot::parse(&text("x")), Err(ScalarError::Invalid));
    assert_eq!(Slot::parse(&InputValue::Other), Err(ScalarError::ExpectedString));
    assert_eq!(Slot(17).to_value(), "17");
}

#[test]
fn chain_length_is_a_number_of_32_bits() {
    assert_eq!(ChainLength::parse(&text("0")), Ok(ChainLength(0)));
    assert_eq!(ChainLength::parse(&text("123456")), Ok(ChainLength(123456)));
    assert_eq!(ChainLength::parse(&text("-1")), Err(ScalarError::Invalid));
    assert_eq!(ChainLength::parse(&text("")), Err(ScalarError::Invalid));
    assert_eq!(ChainLength::parse(&InputValue::Other), Err(ScalarError::ExpectedString));
    assert_eq!(ChainLength(123456).to_value(), "123456");
}

#[test]
fn value_is_a_number_of_64_bits() {
    assert_eq!(Value::parse(&text("18446744073709551615")), Ok(Value(u64::MAX)));
    assert_eq!(Value::parse(&text("18446744073709551616")), Err(ScalarError::Invalid));
    assert_eq!(Value::parse(&InputValue::Other), Err(ScalarError::ExpectedString));
    assert_eq!(Value(1_000_000).to_value(), "1000000");
    assert_eq!(Value::from_u64(5), Value(5));
}

#[test]
fn non_zero_refuses_zero() {
    assert_eq!(NonZero::parse(&text("0")), Err(ScalarError::Invalid));
    assert_eq!(NonZero::parse(&text("000")), Err(ScalarError::Invalid));
    assert_eq!(NonZero::parse(&text("nope")), Err(ScalarError::Invalid));
    assert_eq!(NonZero::parse(&InputValue::Other), Err(ScalarError::ExpectedString));
    let five = NonZero::parse(&text("5")).unwrap();
    assert_eq!(five.get(), 5);
    assert_eq!(five.to_value(), "5");
    assert_eq!(NonZero::new(0), None);
    assert_eq!(NonZero::new(9).map(|n| n.get()), Some(9));
    assert_eq!(Some(five), NonZero::new(5));
}

#[test]
fn text_scalars_keep_their_text() {
    let value = text("ed25519_pk1abc");
    assert_eq!(PublicKey::parse(&value).unwrap().0, "ed25519_pk1abc");
    assert_eq!(PoolId::parse(&value).unwrap().0, "ed25519_pk1abc");
    assert_eq!(TimeOffsetSeconds::parse(&value).unwrap().0, "ed25519_pk1abc");
    assert_eq!(VotePlanId::parse(&value).unwrap().0, "ed25519_pk1abc");
    assert_eq!(ExternalProposalId::parse(&value).unwrap().0, "ed25519_pk1abc");
    assert_eq!(Weight::parse(&value).unwrap().0, "ed25519_pk1abc");
    assert_eq!(VotePlanCount::parse(&value).unwrap().0, "ed25519_pk1abc");
    assert_eq!(VoteStatusCount::parse(&value).unwrap().0, "ed25519_pk1abc");
    assert_eq!(PublicKey("k".to_string()).to_value(), "k");
    assert_eq!(PoolId("p".to_string()).to_value(), "p");
    assert_eq!(TimeOffsetSeconds("1".to_string()).to_value(), "1");
    assert_eq!(VotePlanId("v".to_string()).to_value(), "v");
    assert_eq!(ExternalProposalId("e".to_string()).to_value(), "e");
    assert_eq!(Weight("2".to_string()).to_value(), "2");
    assert_eq!(VotePlanCount("3".to_string()).to_value(), "3");
    assert_eq!(VoteStatusCount("4".to_string()).to_value(), "4");
}

#[test]
fn text_scalars_refuse_other_values() {
    let other = InputValue::Other;
    assert_eq!(PublicKey::parse(&other).err(), Some(ScalarError::ExpectedString));
    assert_eq!(PoolId::parse(&other).err(), Some(ScalarError::ExpectedString));
    assert_eq!(TimeOffsetSeconds::parse(&other).err(), Some(ScalarError::ExpectedString));
    assert_eq!(VotePlanId::parse(&other).err(), Some(ScalarError::ExpectedString));
    assert_eq!(ExternalProposalId::parse(&other).err(), Some(ScalarError::ExpectedString));
    assert_eq!(Weight::parse(&other).err(), Some(ScalarError::ExpectedString));
    assert_eq!(VotePlanCount::parse(&other).err(), Some(ScalarError::ExpectedString));
    assert_eq!(VoteStatusCount::parse(&other).err(), Some(ScalarError::ExpectedString));
}

#[test]
fn counts_are_written_in_digits() {
    assert_eq!(VotePlanCount::from_u64(12).0, "12");
    assert_eq!(VotePlanCount::from_u32(7).0, "7");
    assert_eq!(VoteStatusCount::from_u64(0).0, "0");
    assert_eq!(Weight::from_u64(u64::MAX).0, "18446744073709551615");
    assert_eq!(TimeOffsetSeconds::from_seconds(3600).0, "3600");
}

#[test]
fn vote_option_range_is_widened() {
    assert_eq!(VoteOptionRange::from_range(0, 3), VoteOptionRange { start: 0, end: 3 });
    assert_eq!(VoteOptionRange::from_range(200, 255), VoteOptionRange { start: 200, end: 255 });
}

#[test]
fn payload_types_differ() {
    assert_ne!(PayloadType::Public, PayloadType::Private);
}

#[test]
fn cursor_is_read_and_written() {
    assert_eq!(IndexCursor::parse(&text("99")), Ok(IndexCursor(99)));
    assert_eq!(IndexCursor::parse(&text("9 9")), Err(ScalarError::Invalid));
    assert_eq!(IndexCursor::parse(&InputValue::Other), Err(ScalarError::ExpectedString));
    assert_eq!(IndexCursor(99).to_value(), "99");
    assert_eq!(IndexCursor::decode_cursor("12"), Some(IndexCursor(12)));
    assert_eq!(IndexCursor::decode_cursor("twelve"), None);
    assert_eq!(IndexCursor::decode_cursor("18446744073709551616"), None);
    assert_eq!(IndexCursor(12).encode_cursor(), "12");
    assert_eq!(IndexCursor::decode_cursor(&IndexCursor(u64::MAX).encode_cursor()), Some(IndexCursor(u64::MAX)));
}

#[test]
fn cursor_conversions() {
    assert_eq!(IndexCursor::from_u32(5), IndexCursor(5));
    assert_eq!(IndexCursor::from_u64(1 << 40), IndexCursor(1 << 40));
    assert_eq!(IndexCursor::from_chain_length(ChainLength(8)), IndexCursor(8));
    assert_eq!(IndexCursor(77).into_u64(), 77);
    assert_eq!(IndexCursor(4294967295).try_into_u32().ok(), Some(u32::MAX));
    assert_eq!(
        IndexCursor(4294967295).try_into_chain_length().ok(),
        Some(ChainLength(u32::MAX))
    );
    match IndexCursor(4294967296).try_into_u32() {
        Err(CursorError::InvalidCursor(message)) => {
            assert_eq!(message, "block's pagination cursor is greater than maximum 2^32")
        }
        Ok(n) => panic!("{}", n),
    }
    match IndexCursor(u64::MAX).try_into_chain_length() {
        Err(CursorError::InvalidCursor(message)) => {
            assert_eq!(message, "block's pagination cursor is greater than maximum ChainLength")
        }
        Ok(n) => panic!("{:?}", n),
    }
}
