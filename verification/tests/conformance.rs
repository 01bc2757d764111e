use aurora_workspace_demo::abi::{AbiType, AbiValue};
use aurora_workspace_demo::builder::{check_arguments, encode_arguments};
use aurora_workspace_demo::error::EncodingError;
use aurora_workspace_demo::limits::{count_words, MAX_ENCODED_WORDS};

fn word(last: u8) -> [u8; 32] {
    let mut w = [0u8; 32];
    w[31] = last;
    w
}

fn outside_value(value: &AbiValue) -> ethabi::Token {
    match value {
        AbiValue::Address(a) => ethabi::Token::Address(ethabi::Address::from(*a)),
        AbiValue::FixedBytes(b) => ethabi::Token::FixedBytes(b.clone()),
        AbiValue::Bytes(b) => ethabi::Token::Bytes(b.clone()),
        AbiValue::Int(w) => ethabi::Token::Int(ethabi::Int::from_big_endian(w)),
        AbiValue::Uint(w) => ethabi::Token::Uint(ethabi::Uint::from_big_endian(w)),
        AbiValue::Bool(b) => ethabi::Token::Bool(*b),
        AbiValue::String(s) => ethabi::Token::String(s.clone()),
        AbiValue::FixedArray(v) => ethabi::Token::FixedArray(v.iter().map(outside_value).collect()),
        AbiValue::Array(v) => ethabi::Token::Array(v.iter().map(outside_value).collect()),
        AbiValue::Tuple(v) => ethabi::Token::Tuple(v.iter().map(outside_value).collect()),
    }
}

fn outside_type(ty: &AbiType) -> ethabi::ParamType {
    match ty {
        AbiType::Address => ethabi::ParamType::Address,
        AbiType::Bytes => ethabi::ParamType::Bytes,
        AbiType::Int(n) => ethabi::ParamType::Int(*n),
        AbiType::Uint(n) => ethabi::ParamType::Uint(*n),
        AbiType::Bool => ethabi::ParamType::Bool,
        AbiType::String => ethabi::ParamType::String,
        AbiType::Array(t) => ethabi::ParamType::Array(Box::new(outside_type(t))),
        AbiType::FixedBytes(n) => ethabi::ParamType::FixedBytes(*n),
        AbiType::FixedArray(t, n) => ethabi::ParamType::FixedArray(Box::new(outside_type(t)), *n),
        AbiType::Tuple(v) => ethabi::ParamType::Tuple(v.iter().map(outside_type).collect()),
    }
}

fn sample_values() -> Vec<AbiValue> {
    vec![
        AbiValue::Address([1u8; 20]),
        AbiValue::FixedBytes(vec![]),
        AbiValue::FixedBytes(vec![1, 2, 3]),
        AbiValue::FixedBytes(vec![1, 2, 3, 4]),
        AbiValue::FixedBytes(vec![0; 33]),
        AbiValue::Bytes(vec![]),
        AbiValue::Bytes(vec![9; 40]),
        AbiValue::Int(word(1)),
        AbiValue::Uint(word(2)),
        AbiValue::Bool(true),
        AbiValue::String("".to_string()),
        AbiValue::String("héllo wörld".to_string()),
        AbiValue::FixedArray(vec![]),
        AbiValue::FixedArray(vec![AbiValue::Bool(true), AbiValue::Bool(false)]),
        AbiValue::FixedArray(vec![AbiValue::Bool(true), AbiValue::Uint(word(0))]),
        AbiValue::Array(vec![]),
        AbiValue::Array(vec![AbiValue::Bool(true), AbiValue::Bool(false)]),
        AbiValue::Array(vec![AbiValue::Bool(true), AbiValue::Uint(word(0))]),
        AbiValue::Array(vec![AbiValue::Array(vec![AbiValue::Bool(true)])]),
        AbiValue::Tuple(vec![]),
        AbiValue::Tuple(vec![AbiValue::Bool(true)]),
        AbiValue::Tuple(vec![AbiValue::Bool(true), AbiValue::Bytes(vec![1])]),
        AbiValue::Tuple(vec![AbiValue::Bytes(vec![1]), AbiValue::Bool(true)]),
    ]
}

fn sample_types() -> Vec<AbiType> {
    vec![
        AbiType::Address,
        AbiType::Bytes,
        AbiType::Int(8),
        AbiType::Int(256),
        AbiType::Uint(8),
        AbiType::Uint(256),
        AbiType::Bool,
        AbiType::String,
        AbiType::Array(Box::new(AbiType::Bool)),
        AbiType::Array(Box::new(AbiType::Address)),
        AbiType::Array(Box::new(AbiType::Array(Box::new(AbiType::Bool)))),
        AbiType::FixedBytes(0),
        AbiType::FixedBytes(3),
        AbiType::FixedBytes(4),
        AbiType::FixedBytes(32),
        AbiType::FixedArray(Box::new(AbiType::Bool), 0),
        AbiType::FixedArray(Box::new(AbiType::Bool), 2),
        AbiType::FixedArray(Box::new(AbiType::Bool), 3),
        AbiType::FixedArray(Box::new(AbiType::Address), 2),
        AbiType::Tuple(vec![AbiType::Bool, AbiType::Bytes]),
        AbiType::Tuple(vec![AbiType::Bool, AbiType::Bytes, AbiType::Address]),
    ]
}

#[test]
fn scalars_conform_to_their_own_kind() {
    assert!(AbiValue::Address([0u8; 20]).conforms_to(&AbiType::Address));
    assert!(AbiValue::Bytes(vec![1]).conforms_to(&AbiType::Bytes));
    assert!(AbiValue::Bool(false).conforms_to(&AbiType::Bool));
    assert!(AbiValue::String("x".to_string()).conforms_to(&AbiType::String));
    assert!(!AbiValue::Address([0u8; 20]).conforms_to(&AbiType::Bytes));
    assert!(!AbiValue::Bytes(vec![1]).conforms_to(&AbiType::String));
    assert!(!AbiValue::Bool(false).conforms_to(&AbiType::Uint(8)));
    assert!(!AbiValue::String("x".to_string()).conforms_to(&AbiType::Bytes));
}

#[test]
fn integers_conform_to_every_width_of_their_sign() {
    assert!(AbiValue::Uint(word(1)).conforms_to(&AbiType::Uint(256)));
    assert!(AbiValue::Uint(word(1)).conforms_to(&AbiType::Uint(8)));
    assert!(AbiValue::Int(word(1)).conforms_to(&AbiType::Int(64)));
    assert!(!AbiValue::Uint(word(1)).conforms_to(&AbiType::Int(256)));
    assert!(!AbiValue::Int(word(1)).conforms_to(&AbiType::Uint(256)));
}

#[test]
fn bounded_bytes_conform_up_to_the_bound() {
    assert!(AbiValue::FixedBytes(vec![0; 4]).conforms_to(&AbiType::FixedBytes(4)));
    assert!(AbiValue::FixedBytes(vec![0; 3]).conforms_to(&AbiType::FixedBytes(4)));
    assert!(AbiValue::FixedBytes(vec![]).conforms_to(&AbiType::FixedBytes(0)));
    assert!(!AbiValue::FixedBytes(vec![0; 4]).conforms_to(&AbiType::FixedBytes(3)));
    assert!(!AbiValue::FixedBytes(vec![0; 4]).conforms_to(&AbiType::Bytes));
}

#[test]
fn arrays_conform_member_by_member() {
    let bools = || vec![AbiValue::Bool(false), AbiValue::Bool(true)];
    let mixed = || vec![AbiValue::Bool(false), AbiValue::Uint(word(0))];
    assert!(AbiValue::Array(bools()).conforms_to(&AbiType::Array(Box::new(AbiType::Bool))));
    assert!(AbiValue::Array(vec![]).conforms_to(&AbiType::Array(Box::new(AbiType::Bool))));
    assert!(!AbiValue::Array(mixed()).conforms_to(&AbiType::Array(Box::new(AbiType::Bool))));
    assert!(!AbiValue::Array(bools()).conforms_to(&AbiType::Array(Box::new(AbiType::Address))));
    assert!(!AbiValue::Array(bools()).conforms_to(&AbiType::FixedArray(Box::new(AbiType::Bool), 2)));
    assert!(AbiValue::FixedArray(bools())
        .conforms_to(&AbiType::FixedArray(Box::new(AbiType::Bool), 2)));
    assert!(!AbiValue::FixedArray(bools())
        .conforms_to(&AbiType::FixedArray(Box::new(AbiType::Bool), 3)));
    assert!(!AbiValue::FixedArray(mixed())
        .conforms_to(&AbiType::FixedArray(Box::new(AbiType::Bool), 2)));
    assert!(!AbiValue::FixedArray(bools()).conforms_to(&AbiType::Array(Box::new(AbiType::Bool))));
}

#[test]
fn tuples_conform_position_by_position_and_never_overrun() {
    let ty = AbiType::Tuple(vec![AbiType::Bool, AbiType::Bytes]);
    assert!(AbiValue::Tuple(vec![AbiValue::Bool(true), AbiValue::Bytes(vec![1])]).conforms_to(&ty));
    assert!(AbiValue::Tuple(vec![AbiValue::Bool(true)]).conforms_to(&ty));
    assert!(AbiValue::Tuple(vec![]).conforms_to(&ty));
    assert!(!AbiValue::Tuple(vec![AbiValue::Bytes(vec![1]), AbiValue::Bool(true)]).conforms_to(&ty));
    assert!(!AbiValue::Tuple(vec![
        AbiValue::Bool(true),
        AbiValue::Bytes(vec![1]),
        AbiValue::Bool(true)
    ])
    .conforms_to(&ty));
    assert!(!AbiValue::Tuple(vec![AbiValue::Bool(true)]).conforms_to(&AbiType::Bool));
}

#[test]
fn conformance_agrees_with_ethabi_where_ethabi_answers() {
    for value in sample_values() {
        for ty in sample_types() {
            let overruns = match (&value, &ty) {
                (AbiValue::Tuple(items), AbiType::Tuple(members)) => items.len() > members.len(),
                _ => false,
            };
            if overruns {
                assert!(!value.conforms_to(&ty));
            } else {
                assert_eq!(
                    value.conforms_to(&ty),
                    outside_value(&value).type_check(&outside_type(&ty)),
                    "{:?} against {:?}",
                    value,
                    ty
                );
            }
        }
    }
}

#[test]
fn check_arguments_reports_count_before_type() {
    assert_eq!(check_arguments(&vec![], &vec![]), Ok(()));
    assert_eq!(
        check_arguments(&vec![AbiValue::Bool(true)], &vec![]),
        Err(EncodingError::ArgumentCount { expected: 0, actual: 1 })
    );
    assert_eq!(
        check_arguments(&vec![AbiValue::Bool(true)], &vec![AbiType::Address, AbiType::Address]),
        Err(EncodingError::ArgumentCount { expected: 2, actual: 1 })
    );
    assert_eq!(
        check_arguments(
            &vec![AbiValue::Bool(true), AbiValue::Bool(true), AbiValue::Bool(true)],
            &vec![AbiType::Bool, AbiType::Address, AbiType::Address]
        ),
        Err(EncodingError::ArgumentType { index: 1 })
    );
    assert_eq!(
        check_arguments(
            &vec![AbiValue::Bool(true), AbiValue::Address([0u8; 20])],
            &vec![AbiType::Bool, AbiType::Address]
        ),
        Ok(())
    );
}

#[test]
fn encode_arguments_gives_the_canonical_encoding() {
    assert_eq!(encode_arguments(&vec![], &vec![]), Ok(vec![]));
    let mut padded = vec![0u8; 12];
    padded.extend_from_slice(&[0x11u8; 20]);
    assert_eq!(
        encode_arguments(&vec![AbiValue::Address([0x11u8; 20])], &vec![AbiType::Address]),
        Ok(padded)
    );
    let mut expected = word(0x20).to_vec();
    expected.extend_from_slice(&word(2));
    expected.extend_from_slice(&word(1));
    expected.extend_from_slice(&word(0));
    assert_eq!(
        encode_arguments(
            &vec![AbiValue::Array(vec![AbiValue::Bool(true), AbiValue::Bool(false)])],
            &vec![AbiType::Array(Box::new(AbiType::Bool))]
        ),
        Ok(expected)
    );
    assert_eq!(
        encode_arguments(&vec![AbiValue::Bool(true)], &vec![AbiType::Address]),
        Err(EncodingError::ArgumentType { index: 0 })
    );
}

#[test]
fn words_of_scalars_and_byte_strings() {
    assert_eq!(AbiValue::Address([0u8; 20]).encoded_words(), Some(1));
    assert_eq!(AbiValue::Int(word(0)).encoded_words(), Some(1));
    assert_eq!(AbiValue::Uint(word(0)).encoded_words(), Some(1));
    assert_eq!(AbiValue::Bool(true).encoded_words(), Some(1));
    assert_eq!(AbiValue::FixedBytes(vec![]).encoded_words(), Some(0));
    assert_eq!(AbiValue::FixedBytes(vec![0; 1]).encoded_words(), Some(1));
    assert_eq!(AbiValue::FixedBytes(vec![0; 32]).encoded_words(), Some(1));
    assert_eq!(AbiValue::FixedBytes(vec![0; 33]).encoded_words(), Some(2));
    assert_eq!(AbiValue::Bytes(vec![]).encoded_words(), Some(2));
    assert_eq!(AbiValue::Bytes(vec![0; 32]).encoded_words(), Some(3));
    assert_eq!(AbiValue::Bytes(vec![0; 33]).encoded_words(), Some(4));
    assert_eq!(AbiValue::String("".to_string()).encoded_words(), Some(2));
    assert_eq!(AbiValue::String("é".to_string()).encoded_words(), Some(3));
    assert_eq!(AbiValue::String("é".repeat(17)).encoded_words(), Some(4));
}

#[test]
fn words_of_composite_values() {
    let two = || vec![AbiValue::Bool(true), AbiValue::Bytes(vec![0; 33])];
    assert_eq!(AbiValue::Array(vec![]).encoded_words(), Some(2));
    assert_eq!(AbiValue::Array(two()).encoded_words(), Some(7));
    assert_eq!(AbiValue::FixedArray(two()).encoded_words(), Some(6));
    assert_eq!(AbiValue::Tuple(two()).encoded_words(), Some(6));
    assert_eq!(AbiValue::Tuple(vec![]).encoded_words(), Some(1));
    assert_eq!(count_words(&vec![]), Some(0));
    assert_eq!(count_words(&two()), Some(5));
    assert_eq!(count_words(&vec![AbiValue::Array(two()), AbiValue::Tuple(two())]), Some(13));
}

#[test]
fn words_bound_the_length_of_the_encoding() {
    for value in sample_values() {
        let words = value.encoded_words().unwrap();
        let encoded = ethabi::encode(&[outside_value(&value)]);
        assert_eq!(encoded.len() % 32, 0);
        assert!(encoded.len() as u64 / 32 <= words, "{:?}", value);
        if outside_value(&value).is_dynamic() {
            assert_eq!(encoded.len() as u64 / 32, words, "{:?}", value);
        }
    }
    let all = sample_values();
    let total = count_words(&all).unwrap();
    let encoded = ethabi::encode(&all.iter().map(outside_value).collect::<Vec<_>>());
    assert!(encoded.len() as u64 / 32 <= total);
}

#[test]
fn the_bound_keeps_the_encoding_under_four_gibibytes() {
    assert_eq!(MAX_ENCODED_WORDS, 134_217_727);
    assert!(MAX_ENCODED_WORDS * 32 <= u32::MAX as u64);
    assert!((MAX_ENCODED_WORDS + 1) * 32 > u32::MAX as u64);
}
