//! Attributes of an object and the codec between a typed attribute and the triple of type,
//! buffer and length in which it crosses the boundary to the module.

use crate::constants::{
    BBOOL_SIZE, CKA_ALLOWED_MECHANISMS, CKA_BASE, CKA_CLASS, CKA_COPYABLE, CKA_DECRYPT, CKA_DERIVE,
    CKA_ENCRYPT, CKA_EXTRACTABLE, CKA_ID, CKA_KEY_TYPE, CKA_LABEL, CKA_MODIFIABLE, CKA_MODULUS,
    CKA_MODULUS_BITS, CKA_PRIME, CKA_PRIVATE, CKA_PUBLIC_EXPONENT, CKA_SENSITIVE, CKA_SIGN,
    CKA_SIGN_RECOVER, CKA_TOKEN, CKA_UNWRAP, CKA_VALUE, CKA_VALUE_LEN, CKA_VERIFY,
    CKA_VERIFY_RECOVER, CKA_WRAP, CK_UNAVAILABLE_INFORMATION, ULONG_SIZE,
};
use crate::types::byte_order::{
    lemma_bytes_of_value, lemma_bytes_of_values, lemma_value_of_bytes, lemma_values_of_bytes,
    ulong_from_bytes, ulong_to_bytes, ulongs_from_bytes, ulongs_to_bytes, ByteOrder,
};
use crate::Error;
use vstd::prelude::*;
use vstd::slice::slice_subrange;
use vstd::slice::slice_to_vec;

verus! {

/// The kinds of attribute that this library models: a closed subset of the module's.
#[derive(Debug, Copy, Clone, PartialEq, Eq, Structural)]
pub enum AttributeType {
    AllowedMechanisms,
    Base,
    Class,
    Copyable,
    Decrypt,
    Derive,
    Encrypt,
    Extractable,
    Id,
    KeyType,
    Label,
    Modifiable,
    Modulus,
    ModulusBits,
    Prime,
    Private,
    PublicExponent,
    Sensitive,
    Sign,
    SignRecover,
    Token,
    Unwrap,
    Value,
    ValueLen,
    Verify,
    VerifyRecover,
    Wrap,
}

/// What the value of an attribute is made of.
#[derive(Debug, Copy, Clone, PartialEq, Eq, Structural)]
pub enum Shape {
    /// One byte, a `CK_BBOOL`.
    Byte,
    /// One `CK_ULONG`.
    Ulong,
    /// Any number of bytes.
    Bytes,
    /// Any number of `CK_ULONG`s.
    Ulongs,
}

impl AttributeType {
    /// The number by which the module knows this kind of attribute.
    pub open spec fn tag(self) -> u64 {
        match self {
            AttributeType::AllowedMechanisms => CKA_ALLOWED_MECHANISMS,
            AttributeType::Base => CKA_BASE,
            AttributeType::Class => CKA_CLASS,
            AttributeType::Copyable => CKA_COPYABLE,
            AttributeType::Decrypt => CKA_DECRYPT,
            AttributeType::Derive => CKA_DERIVE,
            AttributeType::Encrypt => CKA_ENCRYPT,
            AttributeType::Extractable => CKA_EXTRACTABLE,
            AttributeType::Id => CKA_ID,
            AttributeType::KeyType => CKA_KEY_TYPE,
            AttributeType::Label => CKA_LABEL,
            AttributeType::Modifiable => CKA_MODIFIABLE,
            AttributeType::Modulus => CKA_MODULUS,
            AttributeType::ModulusBits => CKA_MODULUS_BITS,
            AttributeType::Prime => CKA_PRIME,
            AttributeType::Private => CKA_PRIVATE,
            AttributeType::PublicExponent => CKA_PUBLIC_EXPONENT,
            AttributeType::Sensitive => CKA_SENSITIVE,
            AttributeType::Sign => CKA_SIGN,
            AttributeType::SignRecover => CKA_SIGN_RECOVER,
            AttributeType::Token => CKA_TOKEN,
            AttributeType::Unwrap => CKA_UNWRAP,
            AttributeType::Value => CKA_VALUE,
            AttributeType::ValueLen => CKA_VALUE_LEN,
            AttributeType::Verify => CKA_VERIFY,
            AttributeType::VerifyRecover => CKA_VERIFY_RECOVER,
            AttributeType::Wrap => CKA_WRAP,
        }
    }

    /// What the value of an attribute of this kind is made of.
    pub open spec fn shape(self) -> Shape {
        match self {
            AttributeType::Copyable
            | AttributeType::Decrypt
            | AttributeType::Derive
            | AttributeType::Encrypt
            | AttributeType::Extractable
            | AttributeType::Modifiable
            | AttributeType::Private
            | AttributeType::Sensitive
            | AttributeType::Sign
            | AttributeType::SignRecover
            | AttributeType::Token
            | AttributeType::Unwrap
            | AttributeType::Verify
            | AttributeType::VerifyRecover
            | AttributeType::Wrap => Shape::Byte,
            AttributeType::Class
            | AttributeType::KeyType
            | AttributeType::ModulusBits
            | AttributeType::ValueLen => Shape::Ulong,
            AttributeType::Base
            | AttributeType::Id
            | AttributeType::Label
            | AttributeType::Modulus
            | AttributeType::Prime
            | AttributeType::PublicExponent
            | AttributeType::Value => Shape::Bytes,
            AttributeType::AllowedMechanisms => Shape::Ulongs,
        }
    }
}

/// The kind of attribute that the module knows by `tag`: an error where this library models
/// none by that number.
pub open spec fn attribute_type_of(tag: u64) -> Result<AttributeType, Error> {
    if exists|t: AttributeType| #[trigger] t.tag() == tag {
        Ok(choose|t: AttributeType| #[trigger] t.tag() == tag)
    } else {
        Err(Error::NotSupported)
    }
}

/// No number stands for two kinds of attribute.
pub proof fn lemma_tag_names_one_kind(t: AttributeType)
    ensures
        attribute_type_of(t.tag()) == Ok::<AttributeType, Error>(t),
{
    let u = choose|u: AttributeType| #[trigger] u.tag() == t.tag();
    assert(u == t);
}

impl From<AttributeType> for u64 {
    fn from(attribute_type: AttributeType) -> (tag: Self)
        ensures
            tag == attribute_type.tag(),
    {
        match attribute_type {
            AttributeType::AllowedMechanisms => CKA_ALLOWED_MECHANISMS,
            AttributeType::Base => CKA_BASE,
            AttributeType::Class => CKA_CLASS,
            AttributeType::Copyable => CKA_COPYABLE,
            AttributeType::Decrypt => CKA_DECRYPT,
            AttributeType::Derive => CKA_DERIVE,
            AttributeType::Encrypt => CKA_ENCRYPT,
            AttributeType::Extractable => CKA_EXTRACTABLE,
            AttributeType::Id => CKA_ID,
            AttributeType::KeyType => CKA_KEY_TYPE,
            AttributeType::Label => CKA_LABEL,
            AttributeType::Modifiable => CKA_MODIFIABLE,
            AttributeType::Modulus => CKA_MODULUS,
            AttributeType::ModulusBits => CKA_MODULUS_BITS,
            AttributeType::Prime => CKA_PRIME,
            AttributeType::Private => CKA_PRIVATE,
            AttributeType::PublicExponent => CKA_PUBLIC_EXPONENT,
            AttributeType::Sensitive => CKA_SENSITIVE,
            AttributeType::Sign => CKA_SIGN,
            AttributeType::SignRecover => CKA_SIGN_RECOVER,
            AttributeType::Token => CKA_TOKEN,
            AttributeType::Unwrap => CKA_UNWRAP,
            AttributeType::Value => CKA_VALUE,
            AttributeType::ValueLen => CKA_VALUE_LEN,
            AttributeType::Verify => CKA_VERIFY,
            AttributeType::VerifyRecover => CKA_VERIFY_RECOVER,
            AttributeType::Wrap => CKA_WRAP,
        }
    }
}

impl vstd::std_specs::convert::FromSpecImpl<AttributeType> for u64 {
    open spec fn obeys_from_spec() -> bool {
        true
    }

    open spec fn from_spec(attribute_type: AttributeType) -> Self {
        attribute_type.tag()
    }
}

impl TryFrom<u64> for AttributeType {
    type Error = Error;

    fn try_from(attribute_type: u64) -> (r: Result<Self, Error>)
        ensures
            r == attribute_type_of(attribute_type),
    {
        let found =
        if attribute_type == CKA_ALLOWED_MECHANISMS {
            AttributeType::AllowedMechanisms
        }         else if attribute_type == CKA_BASE {
            AttributeType::Base
        }         else if attribute_type == CKA_CLASS {
            AttributeType::Class
        }         else if attribute_type == CKA_COPYABLE {
            AttributeType::Copyable
        }         else if attribute_type == CKA_DECRYPT {
            AttributeType::Decrypt
        }         else if attribute_type == CKA_DERIVE {
            AttributeType::Derive
        }         else if attribute_type == CKA_ENCRYPT {
            AttributeType::Encrypt
        }         else if attribute_type == CKA_EXTRACTABLE {
            AttributeType::Extractable
        }         else if attribute_type == CKA_ID {
            AttributeType::Id
        }         else if attribute_type == CKA_KEY_TYPE {
            AttributeType::KeyType
        }         else if attribute_type == CKA_LABEL {
            AttributeType::Label
        }         else if attribute_type == CKA_MODIFIABLE {
            AttributeType::Modifiable
        }         else if attribute_type == CKA_MODULUS {
            AttributeType::Modulus
        }         else if attribute_type == CKA_MODULUS_BITS {
            AttributeType::ModulusBits
        }         else if attribute_type == CKA_PRIME {
            AttributeType::Prime
        }         else if attribute_type == CKA_PRIVATE {
            AttributeType::Private
        }         else if attribute_type == CKA_PUBLIC_EXPONENT {
            AttributeType::PublicExponent
        }         else if attribute_type == CKA_SENSITIVE {
            AttributeType::Sensitive
        }         else if attribute_type == CKA_SIGN {
            AttributeType::Sign
        }         else if attribute_type == CKA_SIGN_RECOVER {
            AttributeType::SignRecover
        }         else if attribute_type == CKA_TOKEN {
            AttributeType::Token
        }         else if attribute_type == CKA_UNWRAP {
            AttributeType::Unwrap
        }         else if attribute_type == CKA_VALUE {
            AttributeType::Value
        }         else if attribute_type == CKA_VALUE_LEN {
            AttributeType::ValueLen
        }         else if attribute_type == CKA_VERIFY {
            AttributeType::Verify
        }         else if attribute_type == CKA_VERIFY_RECOVER {
            AttributeType::VerifyRecover
        }         else if attribute_type == CKA_WRAP {
            AttributeType::Wrap
        } else {
            proof {
                assert forall|t: AttributeType| #[trigger] t.tag() != attribute_type by {}
            }
            return Err(Error::NotSupported);
        };
        proof {
            assert(found.tag() == attribute_type);
            lemma_tag_names_one_kind(found);
        }
        Ok(found)
    }
}

impl vstd::std_specs::convert::TryFromSpecImpl<u64> for AttributeType {
    open spec fn obeys_try_from_spec() -> bool {
        true
    }

    open spec fn try_from_spec(attribute_type: u64) -> Result<Self, Error> {
        attribute_type_of(attribute_type)
    }
}

/// The value of an attribute, as mathematics sees it.
pub enum Payload {
    Byte(u8),
    Ulong(u64),
    Bytes(Seq<u8>),
    Ulongs(Seq<u64>),
}

impl Payload {
    /// What this value is made of.
    pub open spec fn shape(self) -> Shape {
        match self {
            Payload::Byte(_) => Shape::Byte,
            Payload::Ulong(_) => Shape::Ulong,
            Payload::Bytes(_) => Shape::Bytes,
            Payload::Ulongs(_) => Shape::Ulongs,
        }
    }

    /// The number of bytes that this value takes in a buffer.
    pub open spec fn len(self) -> nat {
        match self {
            Payload::Byte(_) => BBOOL_SIZE as nat,
            Payload::Ulong(_) => ULONG_SIZE as nat,
            Payload::Bytes(bytes) => bytes.len(),
            Payload::Ulongs(values) => (values.len() * ULONG_SIZE) as nat,
        }
    }

    /// The bytes that this value takes in a buffer.
    pub open spec fn bytes(self, order: ByteOrder) -> Seq<u8> {
        match self {
            Payload::Byte(byte) => seq![byte],
            Payload::Ulong(value) => ulong_to_bytes(value, order),
            Payload::Bytes(bytes) => bytes,
            Payload::Ulongs(values) => ulongs_to_bytes(values, order),
        }
    }

    /// The value of the given shape that a buffer holds: an error where the buffer is not as
    /// long as a value of that shape is.
    pub open spec fn of_bytes(shape: Shape, bytes: Seq<u8>, order: ByteOrder) -> Result<
        Payload,
        Error,
    > {
        match shape {
            Shape::Byte => if bytes.len() == BBOOL_SIZE {
                Ok(Payload::Byte(bytes[0]))
            } else {
                Err(Error::TryFromSlice)
            },
            Shape::Ulong => if bytes.len() == ULONG_SIZE {
                Ok(Payload::Ulong(ulong_from_bytes(bytes, order)))
            } else {
                Err(Error::TryFromSlice)
            },
            Shape::Bytes => Ok(Payload::Bytes(bytes)),
            Shape::Ulongs => if bytes.len() % ULONG_SIZE as nat == 0 {
                Ok(Payload::Ulongs(ulongs_from_bytes(bytes, order)))
            } else {
                Err(Error::TryFromSlice)
            },
        }
    }
}

/// An attribute, as mathematics sees it: its kind and its value.
pub struct AttributeView {
    pub kind: AttributeType,
    pub payload: Payload,
}

impl AttributeView {
    /// The value has the shape that the kind calls for. Every attribute is so.
    pub open spec fn wf(self) -> bool {
        self.payload.shape() == self.kind.shape()
    }
}

/// One attribute of an object: its kind and its value, owned.
#[derive(Debug, Clone, PartialEq, Eq)]
pub enum Attribute {
    AllowedMechanisms(Vec<u64>),
    Base(Vec<u8>),
    Class(u64),
    Copyable(u8),
    Decrypt(u8),
    Derive(u8),
    Encrypt(u8),
    Extractable(u8),
    Id(Vec<u8>),
    KeyType(u64),
    Label(Vec<u8>),
    Modifiable(u8),
    Modulus(Vec<u8>),
    ModulusBits(u64),
    Prime(Vec<u8>),
    Private(u8),
    PublicExponent(Vec<u8>),
    Sensitive(u8),
    Sign(u8),
    SignRecover(u8),
    Token(u8),
    Unwrap(u8),
    Value(Vec<u8>),
    ValueLen(u64),
    Verify(u8),
    VerifyRecover(u8),
    Wrap(u8),
}

impl View for Attribute {
    type V = AttributeView;

    open spec fn view(&self) -> AttributeView {
        match self {
            Attribute::AllowedMechanisms(values) => AttributeView {
                kind: AttributeType::AllowedMechanisms,
                payload: Payload::Ulongs(values@),
            },
            Attribute::Base(bytes) => AttributeView {
                kind: AttributeType::Base,
                payload: Payload::Bytes(bytes@),
            },
            Attribute::Class(v) => AttributeView {
                kind: AttributeType::Class,
                payload: Payload::Ulong(*v),
            },
            Attribute::Copyable(b) => AttributeView {
                kind: AttributeType::Copyable,
                payload: Payload::Byte(*b),
            },
            Attribute::Decrypt(b) => AttributeView {
                kind: AttributeType::Decrypt,
                payload: Payload::Byte(*b),
            },
            Attribute::Derive(b) => AttributeView {
                kind: AttributeType::Derive,
                payload: Payload::Byte(*b),
            },
            Attribute::Encrypt(b) => AttributeView {
                kind: AttributeType::Encrypt,
                payload: Payload::Byte(*b),
            },
            Attribute::Extractable(b) => AttributeView {
                kind: AttributeType::Extractable,
                payload: Payload::Byte(*b),
            },
            Attribute::Id(bytes) => AttributeView {
                kind: AttributeType::Id,
                payload: Payload::Bytes(bytes@),
            },
            Attribute::KeyType(v) => AttributeView {
                kind: AttributeType::KeyType,
                payload: Payload::Ulong(*v),
            },
            Attribute::Label(bytes) => AttributeView {
                kind: AttributeType::Label,
                payload: Payload::Bytes(bytes@),
            },
            Attribute::Modifiable(b) => AttributeView {
                kind: AttributeType::Modifiable,
                payload: Payload::Byte(*b),
            },
            Attribute::Modulus(bytes) => AttributeView {
                kind: AttributeType::Modulus,
                payload: Payload::Bytes(bytes@),
            },
            Attribute::ModulusBits(v) => AttributeView {
                kind: AttributeType::ModulusBits,
                payload: Payload::Ulong(*v),
            },
            Attribute::Prime(bytes) => AttributeView {
                kind: AttributeType::Prime,
                payload: Payload::Bytes(bytes@),
            },
            Attribute::Private(b) => AttributeView {
                kind: AttributeType::Private,
                payload: Payload::Byte(*b),
            },
            Attribute::PublicExponent(bytes) => AttributeView {
                kind: AttributeType::PublicExponent,
                payload: Payload::Bytes(bytes@),
            },
            Attribute::Sensitive(b) => AttributeView {
                kind: AttributeType::Sensitive,
                payload: Payload::Byte(*b),
            },
            Attribute::Sign(b) => AttributeView {
                kind: AttributeType::Sign,
                payload: Payload::Byte(*b),
            },
            Attribute::SignRecover(b) => AttributeView {
                kind: AttributeType::SignRecover,
                payload: Payload::Byte(*b),
            },
            Attribute::Token(b) => AttributeView {
                kind: AttributeType::Token,
                payload: Payload::Byte(*b),
            },
            Attribute::Unwrap(b) => AttributeView {
                kind: AttributeType::Unwrap,
                payload: Payload::Byte(*b),
            },
            Attribute::Value(bytes) => AttributeView {
                kind: AttributeType::Value,
                payload: Payload::Bytes(bytes@),
            },
            Attribute::ValueLen(v) => AttributeView {
                kind: AttributeType::ValueLen,
                payload: Payload::Ulong(*v),
            },
            Attribute::Verify(b) => AttributeView {
                kind: AttributeType::Verify,
                payload: Payload::Byte(*b),
            },
            Attribute::VerifyRecover(b) => AttributeView {
                kind: AttributeType::VerifyRecover,
                payload: Payload::Byte(*b),
            },
            Attribute::Wrap(b) => AttributeView {
                kind: AttributeType::Wrap,
                payload: Payload::Byte(*b),
            },
        }
    }
}

impl DeepView for Attribute {
    type V = AttributeView;

    open spec fn deep_view(&self) -> AttributeView {
        self@
    }
}

/// The triple in which one attribute crosses the boundary: the number of its kind, the buffer
/// that the module reads or fills (`None` is the null pointer), and the length that goes with
/// it. A triple owns its buffer, so the bytes live as long as the triple does.
#[derive(Debug, Clone, PartialEq, Eq)]
pub struct RawAttribute {
    pub type_: u64,
    pub value: Option<Vec<u8>>,
    pub len: u64,
}

/// A triple, as mathematics sees it.
pub struct RawAttributeView {
    pub type_: u64,
    pub value: Option<Seq<u8>>,
    pub len: u64,
}

impl View for RawAttribute {
    type V = RawAttributeView;

    open spec fn view(&self) -> RawAttributeView {
        RawAttributeView {
            type_: self.type_,
            value: match self.value {
                Some(buffer) => Some(buffer@),
                None => None,
            },
            len: self.len,
        }
    }
}

impl DeepView for RawAttribute {
    type V = RawAttributeView;

    open spec fn deep_view(&self) -> RawAttributeView {
        self@
    }
}

/// A result with the view of its value in place of the value.
pub open spec fn viewed<T: View>(r: Result<T, Error>) -> Result<T::V, Error> {
    match r {
        Ok(value) => Ok(value@),
        Err(e) => Err(e),
    }
}

/// The triple that an attribute is sent as: the number of its kind, its bytes, and how many
/// they are.
pub open spec fn encode_spec(attribute: AttributeView, order: ByteOrder) -> RawAttributeView {
    RawAttributeView {
        type_: attribute.kind.tag(),
        value: Some(attribute.payload.bytes(order)),
        len: attribute.payload.len() as u64,
    }
}

/// The attribute that a triple holds. The number must name a kind that this library models,
/// the length must fit this machine, the buffer must be there and hold that many bytes, and
/// that many bytes must be a value of the kind's shape.
pub open spec fn decode_spec(raw: RawAttributeView, order: ByteOrder) -> Result<
    AttributeView,
    Error,
> {
    match attribute_type_of(raw.type_) {
        Err(e) => Err(e),
        Ok(kind) => if raw.len > usize::MAX {
            Err(Error::TryFromInt)
        } else {
            match raw.value {
                None => Err(Error::TryFromSlice),
                Some(buffer) => if buffer.len() < raw.len {
                    Err(Error::TryFromSlice)
                } else {
                    match Payload::of_bytes(
                        kind.shape(),
                        buffer.subrange(0, raw.len as int),
                        order,
                    ) {
                        Ok(payload) => Ok(AttributeView { kind, payload }),
                        Err(e) => Err(e),
                    }
                },
            }
        },
    }
}

/// The triples that a template is sent as: one for each attribute, in the same order.
pub open spec fn encode_template_spec(template: Seq<AttributeView>, order: ByteOrder) -> Seq<
    RawAttributeView,
> {
    Seq::new(template.len(), |i: int| encode_spec(template[i], order))
}

impl Attribute {
    /// The kind of this attribute.
    pub fn attribute_type(&self) -> (kind: AttributeType)
        ensures
            kind == self@.kind,
    {
        match self {
            Attribute::AllowedMechanisms(_) => AttributeType::AllowedMechanisms,
            Attribute::Base(_) => AttributeType::Base,
            Attribute::Class(_) => AttributeType::Class,
            Attribute::Copyable(_) => AttributeType::Copyable,
            Attribute::Decrypt(_) => AttributeType::Decrypt,
            Attribute::Derive(_) => AttributeType::Derive,
            Attribute::Encrypt(_) => AttributeType::Encrypt,
            Attribute::Extractable(_) => AttributeType::Extractable,
            Attribute::Id(_) => AttributeType::Id,
            Attribute::KeyType(_) => AttributeType::KeyType,
            Attribute::Label(_) => AttributeType::Label,
            Attribute::Modifiable(_) => AttributeType::Modifiable,
            Attribute::Modulus(_) => AttributeType::Modulus,
            Attribute::ModulusBits(_) => AttributeType::ModulusBits,
            Attribute::Prime(_) => AttributeType::Prime,
            Attribute::Private(_) => AttributeType::Private,
            Attribute::PublicExponent(_) => AttributeType::PublicExponent,
            Attribute::Sensitive(_) => AttributeType::Sensitive,
            Attribute::Sign(_) => AttributeType::Sign,
            Attribute::SignRecover(_) => AttributeType::SignRecover,
            Attribute::Token(_) => AttributeType::Token,
            Attribute::Unwrap(_) => AttributeType::Unwrap,
            Attribute::Value(_) => AttributeType::Value,
            Attribute::ValueLen(_) => AttributeType::ValueLen,
            Attribute::Verify(_) => AttributeType::Verify,
            Attribute::VerifyRecover(_) => AttributeType::VerifyRecover,
            Attribute::Wrap(_) => AttributeType::Wrap,
        }
    }

    /// The number of bytes that the value takes in a buffer: an error where a buffer cannot
    /// be that long.
    pub fn len(&self) -> (r: Result<usize, Error>)
        ensures
            self@.payload.len() <= usize::MAX ==> r == Ok::<usize, Error>(
                self@.payload.len() as usize,
            ),
            self@.payload.len() > usize::MAX ==> r == Err::<usize, Error>(Error::TryFromInt),
    {
        match self {
            Attribute::Copyable(_)
            | Attribute::Decrypt(_)
            | Attribute::Derive(_)
            | Attribute::Encrypt(_)
            | Attribute::Extractable(_)
            | Attribute::Modifiable(_)
            | Attribute::Private(_)
            | Attribute::Sensitive(_)
            | Attribute::Sign(_)
            | Attribute::SignRecover(_)
            | Attribute::Token(_)
            | Attribute::Unwrap(_)
            | Attribute::Verify(_)
            | Attribute::VerifyRecover(_)
            | Attribute::Wrap(_) => Ok(BBOOL_SIZE),
            Attribute::Class(_)
            | Attribute::KeyType(_)
            | Attribute::ModulusBits(_)
            | Attribute::ValueLen(_) => Ok(ULONG_SIZE),
            Attribute::Base(bytes)
            | Attribute::Id(bytes)
            | Attribute::Label(bytes)
            | Attribute::Modulus(bytes)
            | Attribute::Prime(bytes)
            | Attribute::PublicExponent(bytes)
            | Attribute::Value(bytes) => Ok(bytes.len()),
            Attribute::AllowedMechanisms(mechanisms) => {
                if mechanisms.len() > usize::MAX / ULONG_SIZE {
                    Err(Error::TryFromInt)
                } else {
                    Ok(mechanisms.len() * ULONG_SIZE)
                }
            },
        }
    }

    /// The bytes of the value: what the pointer of the triple points at.
    pub fn bytes(&self, order: ByteOrder) -> (r: Result<Vec<u8>, Error>)
        ensures
            self@.payload.len() <= usize::MAX ==> r is Ok && r->Ok_0@ == self@.payload.bytes(order),
            self@.payload.len() > usize::MAX ==> r == Err::<Vec<u8>, Error>(Error::TryFromInt),
    {
        match self {
            Attribute::Copyable(b)
            | Attribute::Decrypt(b)
            | Attribute::Derive(b)
            | Attribute::Encrypt(b)
            | Attribute::Extractable(b)
            | Attribute::Modifiable(b)
            | Attribute::Private(b)
            | Attribute::Sensitive(b)
            | Attribute::Sign(b)
            | Attribute::SignRecover(b)
            | Attribute::Token(b)
            | Attribute::Unwrap(b)
            | Attribute::Verify(b)
            | Attribute::VerifyRecover(b)
            | Attribute::Wrap(b) => {
                let mut bytes: Vec<u8> = Vec::new();
                bytes.push(*b);
                assert(bytes@ =~= seq![*b]);
                Ok(bytes)
            },
            Attribute::Class(v)
            | Attribute::KeyType(v)
            | Attribute::ModulusBits(v)
            | Attribute::ValueLen(v) => Ok(order.ulong_bytes(*v)),
            Attribute::Base(bytes)
            | Attribute::Id(bytes)
            | Attribute::Label(bytes)
            | Attribute::Modulus(bytes)
            | Attribute::Prime(bytes)
            | Attribute::PublicExponent(bytes)
            | Attribute::Value(bytes) => {
                assert(bytes@.len() == bytes.len());
                Ok(slice_to_vec(bytes.as_slice()))
            },
            Attribute::AllowedMechanisms(mechanisms) => order.ulongs_bytes(mechanisms.as_slice()),
        }
    }

    /// The triple that this attribute is sent as. The one failure is a value too long for a
    /// buffer.
    pub fn encode(&self, order: ByteOrder) -> (r: Result<RawAttribute, Error>)
        ensures
            self@.payload.len() <= usize::MAX ==> viewed(r) == Ok::<RawAttributeView, Error>(
                encode_spec(self@, order),
            ),
            self@.payload.len() > usize::MAX ==> viewed(r) == Err::<RawAttributeView, Error>(
                Error::TryFromInt,
            ),
    {
        let len = self.len()?;
        let value = self.bytes(order)?;
        Ok(
            RawAttribute {
                type_: self.attribute_type().into(),
                value: Some(value),
                len: len as u64,
            },
        )
    }

    /// The attribute that a triple holds, its value copied out of the triple's buffer.
    pub fn decode(raw: &RawAttribute, order: ByteOrder) -> (r: Result<Attribute, Error>)
        ensures
            viewed(r) == decode_spec(raw@, order),
    {
        let attr_type = AttributeType::try_from(raw.type_)?;
        if raw.len > usize::MAX as u64 {
            return Err(Error::TryFromInt);
        }
        let len = raw.len as usize;
        let val: &[u8] = match &raw.value {
            None => {
                return Err(Error::TryFromSlice);
            },
            Some(buffer) => {
                if buffer.len() < len {
                    return Err(Error::TryFromSlice);
                }
                slice_subrange(buffer.as_slice(), 0, len)
            },
        };
        match attr_type {
            AttributeType::AllowedMechanisms => Ok(
                Attribute::AllowedMechanisms(order.ulongs(val)?),
            ),
            AttributeType::Base => Ok(Attribute::Base(slice_to_vec(val))),
            AttributeType::Class => Ok(Attribute::Class(order.ulong(val)?)),
            AttributeType::Copyable => Ok(Attribute::Copyable(byte_of(val)?)),
            AttributeType::Decrypt => Ok(Attribute::Decrypt(byte_of(val)?)),
            AttributeType::Derive => Ok(Attribute::Derive(byte_of(val)?)),
            AttributeType::Encrypt => Ok(Attribute::Encrypt(byte_of(val)?)),
            AttributeType::Extractable => Ok(Attribute::Extractable(byte_of(val)?)),
            AttributeType::Id => Ok(Attribute::Id(slice_to_vec(val))),
            AttributeType::KeyType => Ok(Attribute::KeyType(order.ulong(val)?)),
            AttributeType::Label => Ok(Attribute::Label(slice_to_vec(val))),
            AttributeType::Modifiable => Ok(Attribute::Modifiable(byte_of(val)?)),
            AttributeType::Modulus => Ok(Attribute::Modulus(slice_to_vec(val))),
            AttributeType::ModulusBits => Ok(Attribute::ModulusBits(order.ulong(val)?)),
            AttributeType::Prime => Ok(Attribute::Prime(slice_to_vec(val))),
            AttributeType::Private => Ok(Attribute::Private(byte_of(val)?)),
            AttributeType::PublicExponent => Ok(Attribute::PublicExponent(slice_to_vec(val))),
            AttributeType::Sensitive => Ok(Attribute::Sensitive(byte_of(val)?)),
            AttributeType::Sign => Ok(Attribute::Sign(byte_of(val)?)),
            AttributeType::SignRecover => Ok(Attribute::SignRecover(byte_of(val)?)),
            AttributeType::Token => Ok(Attribute::Token(byte_of(val)?)),
            AttributeType::Unwrap => Ok(Attribute::Unwrap(byte_of(val)?)),
            AttributeType::Value => Ok(Attribute::Value(slice_to_vec(val))),
            AttributeType::ValueLen => Ok(Attribute::ValueLen(order.ulong(val)?)),
            AttributeType::Verify => Ok(Attribute::Verify(byte_of(val)?)),
            AttributeType::VerifyRecover => Ok(Attribute::VerifyRecover(byte_of(val)?)),
            AttributeType::Wrap => Ok(Attribute::Wrap(byte_of(val)?)),
        }
    }
}

/// The triple with which the length of an attribute of the given kind is asked for: no
/// buffer, no length.
pub open spec fn probe_spec(kind: AttributeType) -> RawAttributeView {
    RawAttributeView { type_: kind.tag(), value: None, len: 0 }
}

/// The attributes that the triples of a template hold, in the same order: the error of the
/// first triple that holds none.
pub open spec fn decode_template_spec(raw: Seq<RawAttributeView>, order: ByteOrder) -> Result<
    Seq<AttributeView>,
    Error,
>
    decreases raw.len(),
{
    if raw.len() == 0 {
        Ok(Seq::empty())
    } else {
        match decode_template_spec(raw.drop_last(), order) {
            Err(e) => Err(e),
            Ok(attributes) => match decode_spec(raw.last(), order) {
                Err(e) => Err(e),
                Ok(attribute) => Ok(attributes.push(attribute)),
            },
        }
    }
}

/// Whether every attribute of a template has a value that a buffer can hold.
pub open spec fn template_fits(template: Seq<AttributeView>) -> bool {
    forall|i: int| 0 <= i < template.len() ==> (#[trigger] template[i]).payload.len() <= usize::MAX
}

/// The value of every attribute has the shape that its kind calls for.
pub proof fn lemma_attribute_wf(attribute: Attribute)
    ensures
        attribute@.wf(),
{
}

/// The number of bytes that a value takes is the number of the bytes that it is sent as.
pub proof fn lemma_payload_len(payload: Payload, order: ByteOrder)
    ensures
        payload.bytes(order).len() == payload.len(),
{
    match payload {
        Payload::Ulong(value) => {
            lemma_value_of_bytes(value, order);
        },
        _ => {},
    }
}

/// Decoding what an attribute was encoded to gives the attribute back, whatever its kind and
/// value, as long as a buffer can hold the value.
pub proof fn lemma_decode_encode(attribute: AttributeView, order: ByteOrder)
    requires
        attribute.wf(),
        attribute.payload.len() <= usize::MAX,
    ensures
        decode_spec(encode_spec(attribute, order), order) == Ok::<AttributeView, Error>(attribute),
{
    let raw = encode_spec(attribute, order);
    let bytes = attribute.payload.bytes(order);
    lemma_tag_names_one_kind(attribute.kind);
    lemma_payload_len(attribute.payload, order);
    assert(bytes.subrange(0, raw.len as int) =~= bytes);
    match attribute.payload {
        Payload::Byte(byte) => {},
        Payload::Ulong(value) => {
            lemma_value_of_bytes(value, order);
        },
        Payload::Bytes(b) => {},
        Payload::Ulongs(values) => {
            lemma_values_of_bytes(values, order);
        },
    }
}

/// Encoding what a triple was decoded to gives the triple back, when the buffer of the triple
/// is exactly as long as the triple says: the length of a value can be told from its kind and
/// the value alone.
pub proof fn lemma_encode_decode(raw: RawAttributeView, order: ByteOrder)
    requires
        raw.value matches Some(buffer) && buffer.len() == raw.len,
        decode_spec(raw, order) is Ok,
    ensures
        decode_spec(raw, order)->Ok_0.wf(),
        encode_spec(decode_spec(raw, order)->Ok_0, order) == raw,
{
    let attribute = decode_spec(raw, order)->Ok_0;
    let buffer = raw.value->Some_0;
    assert(buffer.subrange(0, raw.len as int) =~= buffer);
    assert(attribute.kind.tag() == raw.type_);
    match attribute.payload {
        Payload::Byte(byte) => {
            assert(seq![byte] =~= buffer);
        },
        Payload::Ulong(value) => {
            lemma_bytes_of_value(buffer, order);
        },
        Payload::Bytes(b) => {},
        Payload::Ulongs(values) => {
            lemma_bytes_of_values(buffer, order);
        },
    }
    lemma_payload_len(attribute.payload, order);
}

/// The law above, of an attribute as the program holds it.
pub proof fn lemma_attribute_round_trip(attribute: Attribute, order: ByteOrder)
    requires
        attribute@.payload.len() <= usize::MAX,
    ensures
        decode_spec(encode_spec(attribute@, order), order) == Ok::<AttributeView, Error>(
            attribute@,
        ),
{
    lemma_attribute_wf(attribute);
    lemma_decode_encode(attribute@, order);
}

/// A template is encoded to as many triples as it has attributes, in the same order, and
/// decoding them gives the template back.
pub proof fn lemma_template_round_trip(template: Seq<AttributeView>, order: ByteOrder)
    requires
        forall|i: int| 0 <= i < template.len() ==> (#[trigger] template[i]).wf(),
        template_fits(template),
    ensures
        encode_template_spec(template, order).len() == template.len(),
        forall|i: int|
            0 <= i < template.len() ==> #[trigger] encode_template_spec(template, order)[i]
                == encode_spec(template[i], order),
        decode_template_spec(encode_template_spec(template, order), order) == Ok::<
            Seq<AttributeView>,
            Error,
        >(template),
    decreases template.len(),
{
    let raw = encode_template_spec(template, order);
    if template.len() == 0 {
        assert(template =~= Seq::empty());
    } else {
        let init = template.drop_last();
        lemma_template_round_trip(init, order);
        assert(raw.drop_last() =~= encode_template_spec(init, order));
        lemma_decode_encode(template.last(), order);
        assert(init.push(template.last()) =~= template);
    }
}

/// The handle of an object, as the module assigned it.
#[derive(Debug, Clone, Copy, PartialEq, Eq)]
pub struct ObjectHandle {
    handle: u64,
}

impl View for ObjectHandle {
    type V = u64;

    closed spec fn view(&self) -> u64 {
        self.handle
    }
}

impl DeepView for ObjectHandle {
    type V = u64;

    open spec fn deep_view(&self) -> u64 {
        self@
    }
}

impl ObjectHandle {
    pub(crate) fn new(handle: u64) -> (object: Self)
        ensures
            object@ == handle,
    {
        ObjectHandle { handle }
    }

    pub(crate) fn handle(&self) -> (handle: u64)
        ensures
            handle == self@,
    {
        self.handle
    }
}

/// What the module says of the value of an attribute without giving it.
#[derive(Debug, Copy, Clone, PartialEq, Eq, Structural)]
pub enum AttributeInfo {
    /// The module will not give the value: the attribute is sensitive, or the object has
    /// none of that kind.
    Unavailable,
    /// The value takes that many bytes.
    Available(usize),
}

/// What a length that the module wrote into a triple says of the attribute.
pub open spec fn attribute_info_of(len: u64) -> Result<AttributeInfo, Error> {
    if len == CK_UNAVAILABLE_INFORMATION {
        Ok(AttributeInfo::Unavailable)
    } else if len > usize::MAX {
        Err(Error::TryFromInt)
    } else {
        Ok(AttributeInfo::Available(len as usize))
    }
}

impl TryFrom<u64> for AttributeInfo {
    type Error = Error;

    fn try_from(len: u64) -> (r: Result<Self, Error>)
        ensures
            r == attribute_info_of(len),
    {
        if len == CK_UNAVAILABLE_INFORMATION {
            Ok(AttributeInfo::Unavailable)
        } else if len > usize::MAX as u64 {
            Err(Error::TryFromInt)
        } else {
            Ok(AttributeInfo::Available(len as usize))
        }
    }
}

impl vstd::std_specs::convert::TryFromSpecImpl<u64> for AttributeInfo {
    open spec fn obeys_try_from_spec() -> bool {
        true
    }

    open spec fn try_from_spec(len: u64) -> Result<Self, Error> {
        attribute_info_of(len)
    }
}

impl RawAttribute {
    /// The triple with which the length of an attribute of the given kind is asked for.
    pub fn probe(kind: AttributeType) -> (raw: RawAttribute)
        ensures
            raw@ == probe_spec(kind),
    {
        RawAttribute { type_: kind.into(), value: None, len: 0 }
    }
}

/// The triples that a template is sent as: one for each attribute, in the same order. The
/// one failure is a value too long for a buffer.
pub fn encode_template(template: &[Attribute], order: ByteOrder) -> (r: Result<
    Vec<RawAttribute>,
    Error,
>)
    ensures
        template_fits(template.deep_view()) ==> r is Ok && r->Ok_0.deep_view()
            == encode_template_spec(template.deep_view(), order),
        !template_fits(template.deep_view()) ==> r is Err && r->Err_0 == Error::TryFromInt,
{
    let mut raw: Vec<RawAttribute> = Vec::new();
    let mut i: usize = 0;
    while i < template.len()
        invariant
            i <= template@.len(),
            template_fits(template.deep_view().subrange(0, i as int)),
            raw.deep_view() == encode_template_spec(
                template.deep_view().subrange(0, i as int),
                order,
            ),
        decreases template@.len() - i,
    {
        match template[i].encode(order) {
            Err(e) => {
                assert(template.deep_view()[i as int] == template@[i as int]@);
                return Err(e);
            },
            Ok(triple) => {
                let ghost before = raw.deep_view();
                raw.push(triple);
                assert(raw.deep_view() =~= before.push(triple@));
            },
        }
        i = i + 1;
        assert(raw.deep_view() =~= encode_template_spec(
            template.deep_view().subrange(0, i as int),
            order,
        ));
    }
    assert(template.deep_view().subrange(0, i as int) =~= template.deep_view());
    Ok(raw)
}

/// The triples with which the lengths of attributes of the given kinds are asked for.
pub fn probe_template(kinds: &[AttributeType]) -> (raw: Vec<RawAttribute>)
    ensures
        raw.deep_view() == Seq::new(kinds@.len(), |i: int| probe_spec(kinds@[i])),
{
    let mut raw: Vec<RawAttribute> = Vec::new();
    let mut i: usize = 0;
    while i < kinds.len()
        invariant
            i <= kinds@.len(),
            raw.deep_view() == Seq::new(i as nat, |j: int| probe_spec(kinds@[j])),
        decreases kinds@.len() - i,
    {
        let ghost before = raw.deep_view();
        let probe = RawAttribute::probe(kinds[i]);
        raw.push(probe);
        assert(raw.deep_view() =~= before.push(probe@));
        i = i + 1;
        assert(raw.deep_view() =~= Seq::new(i as nat, |j: int| probe_spec(kinds@[j])));
    }
    raw
}

/// The attributes that the triples of a template hold, in the same order: the error of the
/// first triple that holds none.
pub fn decode_template(raw: &[RawAttribute], order: ByteOrder) -> (r: Result<
    Vec<Attribute>,
    Error,
>)
    ensures
        match r {
            Ok(attributes) => decode_template_spec(raw.deep_view(), order) == Ok::<
                Seq<AttributeView>,
                Error,
            >(attributes.deep_view()),
            Err(e) => decode_template_spec(raw.deep_view(), order) == Err::<
                Seq<AttributeView>,
                Error,
            >(e),
        },
{
    let mut attributes: Vec<Attribute> = Vec::new();
    let mut i: usize = 0;
    assert(raw.deep_view().subrange(0, 0) =~= Seq::empty());
    assert(attributes.deep_view() =~= Seq::empty());
    while i < raw.len()
        invariant
            i <= raw@.len(),
            decode_template_spec(raw.deep_view().subrange(0, i as int), order) == Ok::<
                Seq<AttributeView>,
                Error,
            >(attributes.deep_view()),
        decreases raw@.len() - i,
    {
        let ghost before = raw.deep_view().subrange(0, i as int);
        let ghost next = raw.deep_view().subrange(0, i + 1);
        proof {
            assert(next.drop_last() =~= before);
            assert(next.last() == raw@[i as int]@);
        }
        match Attribute::decode(&raw[i], order) {
            Err(e) => {
                proof {
                    lemma_decode_fails_for_good(raw.deep_view(), i + 1, order);
                }
                return Err(e);
            },
            Ok(attribute) => {
                let ghost decoded = attributes.deep_view();
                attributes.push(attribute);
                assert(attributes.deep_view() =~= decoded.push(attribute@));
            },
        }
        i = i + 1;
    }
    assert(raw.deep_view().subrange(0, i as int) =~= raw.deep_view());
    Ok(attributes)
}

/// Where the first triples of a template cannot be decoded, the template cannot, and the
/// error is the same.
proof fn lemma_decode_fails_for_good(raw: Seq<RawAttributeView>, n: int, order: ByteOrder)
    requires
        0 <= n <= raw.len(),
        decode_template_spec(raw.subrange(0, n), order) is Err,
    ensures
        decode_template_spec(raw, order) == decode_template_spec(raw.subrange(0, n), order),
    decreases raw.len() - n,
{
    if n < raw.len() {
        assert(raw.subrange(0, n + 1).drop_last() =~= raw.subrange(0, n));
        lemma_decode_fails_for_good(raw, n + 1, order);
    } else {
        assert(raw.subrange(0, n) =~= raw);
    }
}

/// The byte that a buffer of exactly one byte holds.
fn byte_of(bytes: &[u8]) -> (r: Result<u8, Error>)
    ensures
        bytes@.len() == BBOOL_SIZE ==> r == Ok::<u8, Error>(bytes@[0]),
        bytes@.len() != BBOOL_SIZE ==> r == Err::<u8, Error>(Error::TryFromSlice),
{
    if bytes.len() != BBOOL_SIZE {
        Err(Error::TryFromSlice)
    } else {
        Ok(bytes[0])
    }
}

} // verus!
