use pkcs11::constants::{
    CKA_ALLOWED_MECHANISMS, CKA_CLASS, CKA_MODULUS, CKA_MODULUS_BITS, CKA_TOKEN,
    CK_UNAVAILABLE_INFORMATION,
};
use pkcs11::types::byte_order::ByteOrder;
use pkcs11::types::object::{
    decode_template, encode_template, probe_template, Attribute, AttributeInfo, AttributeType,
    RawAttribute,
};
use pkcs11::Error;

fn all_kinds() -> Vec<AttributeType> {
    vec![
        AttributeType::AllowedMechanisms,
        AttributeType::Base,
        AttributeType::Class,
        AttributeType::Copyable,
        AttributeType::Decrypt,
        AttributeType::Derive,
        AttributeType::Encrypt,
        AttributeType::Extractable,
        AttributeType::Id,
        AttributeType::KeyType,
        AttributeType::Label,
        AttributeType::Modifiable,
        AttributeType::Modulus,
        AttributeType::ModulusBits,
        AttributeType::Prime,
        AttributeType::Private,
        AttributeType::PublicExponent,
        AttributeType::Sensitive,
        AttributeType::Sign,
        AttributeType::SignRecover,
        AttributeType::Token,
        AttributeType::Unwrap,
        AttributeType::Value,
        AttributeType::ValueLen,
        AttributeType::Verify,
        AttributeType::VerifyRecover,
        AttributeType::Wrap,
    ]
}

fn one_of_each() -> Vec<Attribute> {
    vec![
        Attribute::AllowedMechanisms(vec![1, 0xD, 0x250, u64::MAX]),
        Attribute::Base(vec![2]),
        Attribute::Class(2),
        Attribute::Copyable(1),
        Attribute::Decrypt(0),
        Attribute::Derive(1),
        Attribute::Encrypt(0),
        Attribute::Extractable(1),
        Attribute::Id(vec![9, 8, 7]),
        Attribute::KeyType(0x1F),
        Attribute::Label(b"a key".to_vec()),
        Attribute::Modifiable(1),
        Attribute::Modulus(vec![0xFF; 256]),
        Attribute::ModulusBits(2048),
        Attribute::Prime(vec![0x0B]),
        Attribute::Private(0),
        Attribute::PublicExponent(vec![1, 0, 1]),
        Attribute::Sensitive(1),
        Attribute::Sign(1),
        Attribute::SignRecover(0),
        Attribute::Token(1),
        Attribute::Unwrap(0),
        Attribute::Value(vec![]),
        Attribute::ValueLen(0x0102_0304_0506_0708),
        Attribute::Verify(1),
        Attribute::VerifyRecover(0),
        Attribute::Wrap(7),
    ]
}

#[test]
fn every_attribute_comes_back_from_its_triple() {
    for order in [ByteOrder::LittleEndian, ByteOrder::BigEndian, ByteOrder::native()] {
        for attribute in one_of_each() {
            let raw = attribute.encode(order).unwrap();
            assert_eq!(Attribute::decode(&raw, order), Ok(attribute));
        }
    }
}

#[test]
fn every_kind_has_its_own_number_and_comes_back_from_it() {
    let kinds = all_kinds();
    for (i, kind) in kinds.iter().enumerate() {
        let tag = u64::from(*kind);
        assert_eq!(AttributeType::try_from(tag), Ok(*kind));
        for other in &kinds[..i] {
            assert_ne!(u64::from(*other), tag);
        }
    }
    let attributes = one_of_each();
    assert_eq!(attributes.len(), kinds.len());
    for (attribute, kind) in attributes.iter().zip(kinds.iter()) {
        assert_eq!(attribute.attribute_type(), *kind);
    }
}

#[test]
fn the_numbers_are_those_of_the_standard() {
    assert_eq!(u64::from(AttributeType::Class), 0);
    assert_eq!(u64::from(AttributeType::Token), 1);
    assert_eq!(u64::from(AttributeType::Private), 2);
    assert_eq!(u64::from(AttributeType::Label), 3);
    assert_eq!(u64::from(AttributeType::Value), 0x11);
    assert_eq!(u64::from(AttributeType::KeyType), 0x100);
    assert_eq!(u64::from(AttributeType::Id), 0x102);
    assert_eq!(u64::from(AttributeType::Sensitive), 0x103);
    assert_eq!(u64::from(AttributeType::Encrypt), 0x104);
    assert_eq!(u64::from(AttributeType::Decrypt), 0x105);
    assert_eq!(u64::from(AttributeType::Wrap), 0x106);
    assert_eq!(u64::from(AttributeType::Unwrap), 0x107);
    assert_eq!(u64::from(AttributeType::Sign), 0x108);
    assert_eq!(u64::from(AttributeType::SignRecover), 0x109);
    assert_eq!(u64::from(AttributeType::Verify), 0x10A);
    assert_eq!(u64::from(AttributeType::VerifyRecover), 0x10B);
    assert_eq!(u64::from(AttributeType::Derive), 0x10C);
    assert_eq!(u64::from(AttributeType::Modulus), 0x120);
    assert_eq!(u64::from(AttributeType::ModulusBits), 0x121);
    assert_eq!(u64::from(AttributeType::PublicExponent), 0x122);
    assert_eq!(u64::from(AttributeType::Prime), 0x130);
    assert_eq!(u64::from(AttributeType::Base), 0x132);
    assert_eq!(u64::from(AttributeType::ValueLen), 0x161);
    assert_eq!(u64::from(AttributeType::Extractable), 0x162);
    assert_eq!(u64::from(AttributeType::Modifiable), 0x170);
    assert_eq!(u64::from(AttributeType::Copyable), 0x171);
    assert_eq!(u64::from(AttributeType::AllowedMechanisms), 0x4000_0600);
}

#[test]
fn a_boolean_is_one_byte() {
    let raw = Attribute::Token(1).encode(ByteOrder::LittleEndian).unwrap();
    assert_eq!(
        raw,
        RawAttribute { type_: CKA_TOKEN, value: Some(vec![1]), len: 1 }
    );
    assert_eq!(Attribute::Token(1).len(), Ok(1));
    assert_eq!(Attribute::Token(0).bytes(ByteOrder::BigEndian), Ok(vec![0]));
}

#[test]
fn an_integer_is_eight_bytes_in_the_given_order() {
    let little = Attribute::ModulusBits(1024).encode(ByteOrder::LittleEndian).unwrap();
    assert_eq!(
        little,
        RawAttribute {
            type_: CKA_MODULUS_BITS,
            value: Some(vec![0, 4, 0, 0, 0, 0, 0, 0]),
            len: 8
        }
    );
    let big = Attribute::ModulusBits(1024).encode(ByteOrder::BigEndian).unwrap();
    assert_eq!(big.value, Some(vec![0, 0, 0, 0, 0, 0, 4, 0]));
    assert_eq!(
        ByteOrder::LittleEndian.ulong_bytes(0x0102_0304_0506_0708),
        vec![8, 7, 6, 5, 4, 3, 2, 1]
    );
    assert_eq!(
        ByteOrder::BigEndian.ulong_bytes(0x0102_0304_0506_0708),
        vec![1, 2, 3, 4, 5, 6, 7, 8]
    );
    assert_eq!(
        ByteOrder::LittleEndian.ulong(&[8, 7, 6, 5, 4, 3, 2, 1]),
        Ok(0x0102_0304_0506_0708)
    );
    assert_eq!(
        ByteOrder::BigEndian.ulong(&[0xFF, 0, 0, 0, 0, 0, 0, 1]),
        Ok(0xFF00_0000_0000_0001)
    );
    assert_eq!(ByteOrder::BigEndian.ulong(&[0; 7]), Err(Error::TryFromSlice));
    assert_eq!(ByteOrder::BigEndian.ulong(&[0; 9]), Err(Error::TryFromSlice));
    assert_eq!(Attribute::Class(3).len(), Ok(8));
}

#[test]
fn the_native_order_is_that_of_the_machine() {
    let order = ByteOrder::native();
    for value in [0u64, 1, 0x0102_0304_0506_0708, u64::MAX, 1 << 63, 0xFF00] {
        assert_eq!(order.ulong_bytes(value), value.to_ne_bytes().to_vec());
        assert_eq!(order.ulong(&value.to_ne_bytes()), Ok(value));
    }
    let mut buffer = vec![0xAA];
    order.push_ulong(&mut buffer, 0x1122_3344_5566_7788);
    assert_eq!(buffer[0], 0xAA);
    assert_eq!(buffer[1..], 0x1122_3344_5566_7788u64.to_ne_bytes());
}

#[test]
fn bytes_are_sent_as_they_are() {
    let modulus = vec![0xAB; 1024];
    let raw = Attribute::Modulus(modulus.clone()).encode(ByteOrder::BigEndian).unwrap();
    assert_eq!(raw.type_, CKA_MODULUS);
    assert_eq!(raw.len, 1024);
    assert_eq!(raw.value, Some(modulus));
    let base = Attribute::Base(vec![1, 2, 3]);
    assert_eq!(base.len(), Ok(3));
    assert_eq!(base.encode(ByteOrder::LittleEndian).unwrap().len, 3);
    let empty = Attribute::Value(vec![]).encode(ByteOrder::LittleEndian).unwrap();
    assert_eq!(empty.len, 0);
    assert_eq!(empty.value, Some(vec![]));
}

#[test]
fn a_list_of_mechanisms_is_eight_bytes_each() {
    let list = Attribute::AllowedMechanisms(vec![1, 0x250]);
    assert_eq!(list.len(), Ok(16));
    let raw = list.encode(ByteOrder::LittleEndian).unwrap();
    assert_eq!(
        raw,
        RawAttribute {
            type_: CKA_ALLOWED_MECHANISMS,
            value: Some(vec![1, 0, 0, 0, 0, 0, 0, 0, 0x50, 2, 0, 0, 0, 0, 0, 0]),
            len: 16
        }
    );
    assert_eq!(
        ByteOrder::BigEndian.ulongs_bytes(&[1, 0x250]),
        Ok(vec![0, 0, 0, 0, 0, 0, 0, 1, 0, 0, 0, 0, 0, 0, 2, 0x50])
    );
    assert_eq!(
        ByteOrder::BigEndian.ulongs(&[0, 0, 0, 0, 0, 0, 0, 1, 0, 0, 0, 0, 0, 0, 2, 0x50]),
        Ok(vec![1, 0x250])
    );
    assert_eq!(ByteOrder::BigEndian.ulongs(&[]), Ok(vec![]));
    assert_eq!(ByteOrder::BigEndian.ulongs(&[0; 12]), Err(Error::TryFromSlice));
    let odd = RawAttribute { type_: CKA_ALLOWED_MECHANISMS, value: Some(vec![0; 12]), len: 12 };
    assert_eq!(Attribute::decode(&odd, ByteOrder::LittleEndian), Err(Error::TryFromSlice));
}

#[test]
fn a_number_outside_the_modeled_set_is_not_supported() {
    for tag in [4u64, 0x10, 0x101, 0x4000_0601, u64::MAX] {
        assert_eq!(AttributeType::try_from(tag), Err(Error::NotSupported));
        let raw = RawAttribute { type_: tag, value: Some(vec![1]), len: 1 };
        assert_eq!(Attribute::decode(&raw, ByteOrder::LittleEndian), Err(Error::NotSupported));
    }
}

#[test]
fn a_buffer_of_the_wrong_length_is_refused() {
    let order = ByteOrder::LittleEndian;
    let none = RawAttribute { type_: CKA_TOKEN, value: None, len: 1 };
    assert_eq!(Attribute::decode(&none, order), Err(Error::TryFromSlice));
    let short = RawAttribute { type_: CKA_TOKEN, value: Some(vec![1]), len: 2 };
    assert_eq!(Attribute::decode(&short, order), Err(Error::TryFromSlice));
    let empty = RawAttribute { type_: CKA_TOKEN, value: Some(vec![1]), len: 0 };
    assert_eq!(Attribute::decode(&empty, order), Err(Error::TryFromSlice));
    let two = RawAttribute { type_: CKA_TOKEN, value: Some(vec![1, 1]), len: 2 };
    assert_eq!(Attribute::decode(&two, order), Err(Error::TryFromSlice));
    let seven = RawAttribute { type_: CKA_CLASS, value: Some(vec![0; 8]), len: 7 };
    assert_eq!(Attribute::decode(&seven, order), Err(Error::TryFromSlice));
    let unavailable =
        RawAttribute { type_: CKA_MODULUS, value: Some(vec![0; 8]), len: CK_UNAVAILABLE_INFORMATION };
    assert_eq!(Attribute::decode(&unavailable, order), Err(Error::TryFromSlice));
}

#[test]
fn only_the_counted_bytes_of_a_buffer_are_decoded() {
    let order = ByteOrder::BigEndian;
    let raw = RawAttribute { type_: CKA_MODULUS, value: Some(vec![1, 2, 3, 4, 5]), len: 3 };
    assert_eq!(Attribute::decode(&raw, order), Ok(Attribute::Modulus(vec![1, 2, 3])));
    let flag = RawAttribute { type_: CKA_TOKEN, value: Some(vec![1, 9, 9]), len: 1 };
    assert_eq!(Attribute::decode(&flag, order), Ok(Attribute::Token(1)));
    let class = RawAttribute {
        type_: CKA_CLASS,
        value: Some(vec![0, 0, 0, 0, 0, 0, 0, 2, 0xFF]),
        len: 8,
    };
    assert_eq!(Attribute::decode(&class, order), Ok(Attribute::Class(2)));
}

#[test]
fn a_template_is_encoded_one_for_one_and_in_order() {
    let template = one_of_each();
    for order in [ByteOrder::LittleEndian, ByteOrder::BigEndian] {
        let raw = encode_template(&template, order).unwrap();
        assert_eq!(raw.len(), template.len());
        for (triple, attribute) in raw.iter().zip(template.iter()) {
            assert_eq!(*triple, attribute.encode(order).unwrap());
        }
        assert_eq!(decode_template(&raw, order), Ok(template.clone()));
    }
    assert_eq!(encode_template(&[], ByteOrder::LittleEndian), Ok(vec![]));
    assert_eq!(decode_template(&[], ByteOrder::LittleEndian), Ok(vec![]));
}

#[test]
fn the_first_bad_triple_decides_the_error_of_a_template() {
    let order = ByteOrder::LittleEndian;
    let good = Attribute::Token(1).encode(order).unwrap();
    let unsupported = RawAttribute { type_: 0x9999, value: Some(vec![]), len: 0 };
    let short = RawAttribute { type_: CKA_TOKEN, value: None, len: 1 };
    assert_eq!(
        decode_template(&[good.clone(), unsupported.clone(), short.clone()], order),
        Err(Error::NotSupported)
    );
    assert_eq!(
        decode_template(&[good.clone(), short, unsupported], order),
        Err(Error::TryFromSlice)
    );
    assert_eq!(decode_template(&[good], order), Ok(vec![Attribute::Token(1)]));
}

#[test]
fn a_probe_has_no_buffer_and_no_length() {
    assert_eq!(
        RawAttribute::probe(AttributeType::Modulus),
        RawAttribute { type_: CKA_MODULUS, value: None, len: 0 }
    );
    let probes = probe_template(&[AttributeType::Class, AttributeType::Modulus]);
    assert_eq!(
        probes,
        vec![
            RawAttribute { type_: CKA_CLASS, value: None, len: 0 },
            RawAttribute { type_: CKA_MODULUS, value: None, len: 0 },
        ]
    );
    assert_eq!(probe_template(&[]), vec![]);
}

#[test]
fn a_length_says_whether_the_value_can_be_had() {
    assert_eq!(AttributeInfo::try_from(1024u64), Ok(AttributeInfo::Available(1024)));
    assert_eq!(AttributeInfo::try_from(0u64), Ok(AttributeInfo::Available(0)));
    assert_eq!(
        AttributeInfo::try_from(CK_UNAVAILABLE_INFORMATION),
        Ok(AttributeInfo::Unavailable)
    );
    assert_eq!(CK_UNAVAILABLE_INFORMATION, u64::MAX);
}

#[test]
fn the_first_byte_of_a_stored_one_tells_the_order() {
    assert_eq!(ByteOrder::storing_one_as([1, 0]), ByteOrder::LittleEndian);
    assert_eq!(ByteOrder::storing_one_as([0, 1]), ByteOrder::BigEndian);
    assert_eq!(ByteOrder::storing_one_as(1u16.to_le_bytes()), ByteOrder::LittleEndian);
    assert_eq!(ByteOrder::storing_one_as(1u16.to_be_bytes()), ByteOrder::BigEndian);
    assert_eq!(ByteOrder::storing_one_as(1u16.to_ne_bytes()), ByteOrder::native());
}
