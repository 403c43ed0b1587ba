//! Mechanisms: what a key is generated by, and what a session signs, verifies, encrypts and
//! decrypts with.

pub mod rsa;

use crate::constants::{
    CKM_RSA_PKCS, CKM_RSA_PKCS_KEY_PAIR_GEN, CKM_RSA_PKCS_OAEP, CKM_RSA_PKCS_PSS, CKM_SHA256,
    CKM_SHA384, CKM_SHA512, CKM_SHA_1,
};
use crate::Error;
use vstd::prelude::*;

verus! {

/// The number of a mechanism that this library models.
#[derive(Debug, Clone, Copy, PartialEq, Eq)]
pub struct MechanismType {
    val: u64,
}

impl View for MechanismType {
    type V = u64;

    closed spec fn view(&self) -> u64 {
        self.val
    }
}

/// Whether `val` is one of the values that a `MechanismType` can have.
pub open spec fn is_mechanism_type(val: u64) -> bool {
    val == CKM_RSA_PKCS_KEY_PAIR_GEN
    || val == CKM_RSA_PKCS
    || val == CKM_RSA_PKCS_PSS
    || val == CKM_RSA_PKCS_OAEP
    || val == CKM_SHA_1
    || val == CKM_SHA256
    || val == CKM_SHA384
    || val == CKM_SHA512
}

impl MechanismType {
    /// Generation of an RSA key pair.
    pub fn rsa_pkcs_key_pair_gen() -> (r: Self)
        ensures
            r@ == CKM_RSA_PKCS_KEY_PAIR_GEN,
    {
        MechanismType { val: CKM_RSA_PKCS_KEY_PAIR_GEN }
    }

    /// RSA with the padding of PKCS #1 v1.5.
    pub fn rsa_pkcs() -> (r: Self)
        ensures
            r@ == CKM_RSA_PKCS,
    {
        MechanismType { val: CKM_RSA_PKCS }
    }

    /// RSA signatures with PSS padding.
    pub fn rsa_pkcs_pss() -> (r: Self)
        ensures
            r@ == CKM_RSA_PKCS_PSS,
    {
        MechanismType { val: CKM_RSA_PKCS_PSS }
    }

    /// RSA encryption with OAEP padding.
    pub fn rsa_pkcs_oaep() -> (r: Self)
        ensures
            r@ == CKM_RSA_PKCS_OAEP,
    {
        MechanismType { val: CKM_RSA_PKCS_OAEP }
    }

    /// The digest SHA-1.
    pub fn sha1() -> (r: Self)
        ensures
            r@ == CKM_SHA_1,
    {
        MechanismType { val: CKM_SHA_1 }
    }

    /// The digest SHA-256.
    pub fn sha256() -> (r: Self)
        ensures
            r@ == CKM_SHA256,
    {
        MechanismType { val: CKM_SHA256 }
    }

    /// The digest SHA-384.
    pub fn sha384() -> (r: Self)
        ensures
            r@ == CKM_SHA384,
    {
        MechanismType { val: CKM_SHA384 }
    }

    /// The digest SHA-512.
    pub fn sha512() -> (r: Self)
        ensures
            r@ == CKM_SHA512,
    {
        MechanismType { val: CKM_SHA512 }
    }
}

impl core::ops::Deref for MechanismType {
    type Target = u64;

    fn deref(&self) -> (val: &u64)
        ensures
            *val == self@,
    {
        &self.val
    }
}

impl From<MechanismType> for u64 {
    fn from(value: MechanismType) -> (val: Self)
        ensures
            val == value@,
    {
        value.val
    }
}

impl vstd::std_specs::convert::FromSpecImpl<MechanismType> for u64 {
    open spec fn obeys_from_spec() -> bool {
        true
    }

    open spec fn from_spec(value: MechanismType) -> Self {
        value@
    }
}

impl TryFrom<u64> for MechanismType {
    type Error = Error;

    /// The mechanism type of that number, where this library models it.
    fn try_from(val: u64) -> (r: Result<Self, Error>)
        ensures
            is_mechanism_type(val) ==> r is Ok && r->Ok_0@ == val,
            !is_mechanism_type(val) ==> r == Err::<Self, Error>(Error::NotSupported),
    {
        if val == CKM_RSA_PKCS_KEY_PAIR_GEN
            || val == CKM_RSA_PKCS
            || val == CKM_RSA_PKCS_PSS
            || val == CKM_RSA_PKCS_OAEP
            || val == CKM_SHA_1
            || val == CKM_SHA256
            || val == CKM_SHA384
            || val == CKM_SHA512 {
            Ok(MechanismType { val })
        } else {
            Err(Error::NotSupported)
        }
    }
}

impl vstd::std_specs::convert::TryFromSpecImpl<u64> for MechanismType {
    open spec fn obeys_try_from_spec() -> bool {
        true
    }

    closed spec fn try_from_spec(val: u64) -> Result<Self, Error> {
        if is_mechanism_type(val) {
            Ok(MechanismType { val })
        } else {
            Err(Error::NotSupported)
        }
    }
}

/// A mechanism with the parameters that it takes.
#[derive(Debug, Clone, PartialEq, Eq)]
pub enum Mechanism {
    // RSA
    RsaPkcsKeyPairGen,
    RsaPkcs,
    RsaPkcsPss(rsa::PkcsPssParams),
    RsaPkcsOaep(rsa::PkcsOaepParams),
    // SHA-n
    Sha1,
    Sha256,
    Sha384,
    Sha512,
}

/// Bytes of the parameter structure of RSA PSS: three `CK_ULONG`s.
pub const PSS_PARAMS_SIZE: u64 = 24;

/// Bytes of the parameter structure of RSA OAEP: three `CK_ULONG`s, a pointer and a length.
pub const OAEP_PARAMS_SIZE: u64 = 40;

impl Mechanism {
    /// The number of this mechanism.
    pub open spec fn tag(self) -> u64 {
        match self {
            Mechanism::RsaPkcsKeyPairGen => CKM_RSA_PKCS_KEY_PAIR_GEN,
            Mechanism::RsaPkcs => CKM_RSA_PKCS,
            Mechanism::RsaPkcsPss(_) => CKM_RSA_PKCS_PSS,
            Mechanism::RsaPkcsOaep(_) => CKM_RSA_PKCS_OAEP,
            Mechanism::Sha1 => CKM_SHA_1,
            Mechanism::Sha256 => CKM_SHA256,
            Mechanism::Sha384 => CKM_SHA384,
            Mechanism::Sha512 => CKM_SHA512,
        }
    }

    /// The type of this mechanism.
    pub fn mechanism_type(&self) -> (r: MechanismType)
        ensures
            r@ == self.tag(),
    {
        match self {
            Mechanism::RsaPkcsKeyPairGen => MechanismType::rsa_pkcs_key_pair_gen(),
            Mechanism::RsaPkcs => MechanismType::rsa_pkcs(),
            Mechanism::RsaPkcsPss(_) => MechanismType::rsa_pkcs_pss(),
            Mechanism::RsaPkcsOaep(_) => MechanismType::rsa_pkcs_oaep(),
            Mechanism::Sha1 => MechanismType::sha1(),
            Mechanism::Sha256 => MechanismType::sha256(),
            Mechanism::Sha384 => MechanismType::sha384(),
            Mechanism::Sha512 => MechanismType::sha512(),
        }
    }

    /// The length in bytes of the parameter structure that goes with this mechanism: zero
    /// where it takes none.
    pub fn parameter_len(&self) -> (len: u64)
        ensures
            len == match *self {
                Mechanism::RsaPkcsPss(_) => PSS_PARAMS_SIZE,
                Mechanism::RsaPkcsOaep(_) => OAEP_PARAMS_SIZE,
                _ => 0,
            },
    {
        match self {
            Mechanism::RsaPkcsPss(_) => PSS_PARAMS_SIZE,
            Mechanism::RsaPkcsOaep(_) => OAEP_PARAMS_SIZE,
            Mechanism::RsaPkcsKeyPairGen
            | Mechanism::RsaPkcs
            | Mechanism::Sha1
            | Mechanism::Sha256
            | Mechanism::Sha384
            | Mechanism::Sha512 => 0,
        }
    }
}

} // verus!
