//! The parameters of the RSA mechanisms with PSS and OAEP padding.

use crate::constants::{
    CKG_MGF1_SHA1, CKG_MGF1_SHA224, CKG_MGF1_SHA256, CKG_MGF1_SHA384, CKG_MGF1_SHA512,
    CKZ_DATA_SPECIFIED,
};
use crate::types::mechanism::{Mechanism, MechanismType};
use crate::types::Ulong;
use crate::Error;
use vstd::prelude::*;

verus! {

/// The number of a mask generation function.
#[derive(Debug, Clone, Copy, PartialEq, Eq)]
pub struct PkcsMgfType {
    val: u64,
}

impl View for PkcsMgfType {
    type V = u64;

    closed spec fn view(&self) -> u64 {
        self.val
    }
}

/// Whether `val` is one of the values that a `PkcsMgfType` can have.
pub open spec fn is_mgf_type(val: u64) -> bool {
    val == CKG_MGF1_SHA1
    || val == CKG_MGF1_SHA224
    || val == CKG_MGF1_SHA256
    || val == CKG_MGF1_SHA384
    || val == CKG_MGF1_SHA512
}

impl PkcsMgfType {
    /// MGF1 over SHA-1.
    pub fn mgf1_sha1() -> (r: Self)
        ensures
            r@ == CKG_MGF1_SHA1,
    {
        PkcsMgfType { val: CKG_MGF1_SHA1 }
    }

    /// MGF1 over SHA-224.
    pub fn mgf1_sha224() -> (r: Self)
        ensures
            r@ == CKG_MGF1_SHA224,
    {
        PkcsMgfType { val: CKG_MGF1_SHA224 }
    }

    /// MGF1 over SHA-256.
    pub fn mgf1_sha256() -> (r: Self)
        ensures
            r@ == CKG_MGF1_SHA256,
    {
        PkcsMgfType { val: CKG_MGF1_SHA256 }
    }

    /// MGF1 over SHA-384.
    pub fn mgf1_sha384() -> (r: Self)
        ensures
            r@ == CKG_MGF1_SHA384,
    {
        PkcsMgfType { val: CKG_MGF1_SHA384 }
    }

    /// MGF1 over SHA-512.
    pub fn mgf1_sha512() -> (r: Self)
        ensures
            r@ == CKG_MGF1_SHA512,
    {
        PkcsMgfType { val: CKG_MGF1_SHA512 }
    }
}

impl core::ops::Deref for PkcsMgfType {
    type Target = u64;

    fn deref(&self) -> (val: &u64)
        ensures
            *val == self@,
    {
        &self.val
    }
}

impl From<PkcsMgfType> for u64 {
    fn from(value: PkcsMgfType) -> (val: Self)
        ensures
            val == value@,
    {
        value.val
    }
}

impl vstd::std_specs::convert::FromSpecImpl<PkcsMgfType> for u64 {
    open spec fn obeys_from_spec() -> bool {
        true
    }

    open spec fn from_spec(value: PkcsMgfType) -> Self {
        value@
    }
}

impl TryFrom<u64> for PkcsMgfType {
    type Error = Error;

    /// The mask generation function of that number, where there is one.
    fn try_from(val: u64) -> (r: Result<Self, Error>)
        ensures
            is_mgf_type(val) ==> r is Ok && r->Ok_0@ == val,
            !is_mgf_type(val) ==> r == Err::<Self, Error>(Error::InvalidValue),
    {
        if val == CKG_MGF1_SHA1
            || val == CKG_MGF1_SHA224
            || val == CKG_MGF1_SHA256
            || val == CKG_MGF1_SHA384
            || val == CKG_MGF1_SHA512 {
            Ok(PkcsMgfType { val })
        } else {
            Err(Error::InvalidValue)
        }
    }
}

impl vstd::std_specs::convert::TryFromSpecImpl<u64> for PkcsMgfType {
    open spec fn obeys_try_from_spec() -> bool {
        true
    }

    closed spec fn try_from_spec(val: u64) -> Result<Self, Error> {
        if is_mgf_type(val) {
            Ok(PkcsMgfType { val })
        } else {
            Err(Error::InvalidValue)
        }
    }
}

/// The number of a source of the OAEP label.
#[derive(Debug, Clone, Copy, PartialEq, Eq)]
pub struct PkcsOaepSourceType {
    val: u64,
}

impl View for PkcsOaepSourceType {
    type V = u64;

    closed spec fn view(&self) -> u64 {
        self.val
    }
}

/// Whether `val` is one of the values that a `PkcsOaepSourceType` can have.
pub open spec fn is_oaep_source_type(val: u64) -> bool {
    val == CKZ_DATA_SPECIFIED
}

impl PkcsOaepSourceType {
    /// The label is given as data.
    pub fn data_specified() -> (r: Self)
        ensures
            r@ == CKZ_DATA_SPECIFIED,
    {
        PkcsOaepSourceType { val: CKZ_DATA_SPECIFIED }
    }
}

impl core::ops::Deref for PkcsOaepSourceType {
    type Target = u64;

    fn deref(&self) -> (val: &u64)
        ensures
            *val == self@,
    {
        &self.val
    }
}

impl From<PkcsOaepSourceType> for u64 {
    fn from(value: PkcsOaepSourceType) -> (val: Self)
        ensures
            val == value@,
    {
        value.val
    }
}

impl vstd::std_specs::convert::FromSpecImpl<PkcsOaepSourceType> for u64 {
    open spec fn obeys_from_spec() -> bool {
        true
    }

    open spec fn from_spec(value: PkcsOaepSourceType) -> Self {
        value@
    }
}

impl TryFrom<u64> for PkcsOaepSourceType {
    type Error = Error;

    /// The source of that number, where there is one.
    fn try_from(val: u64) -> (r: Result<Self, Error>)
        ensures
            is_oaep_source_type(val) ==> r is Ok && r->Ok_0@ == val,
            !is_oaep_source_type(val) ==> r == Err::<Self, Error>(Error::InvalidValue),
    {
        if val == CKZ_DATA_SPECIFIED {
            Ok(PkcsOaepSourceType { val })
        } else {
            Err(Error::InvalidValue)
        }
    }
}

impl vstd::std_specs::convert::TryFromSpecImpl<u64> for PkcsOaepSourceType {
    open spec fn obeys_try_from_spec() -> bool {
        true
    }

    closed spec fn try_from_spec(val: u64) -> Result<Self, Error> {
        if is_oaep_source_type(val) {
            Ok(PkcsOaepSourceType { val })
        } else {
            Err(Error::InvalidValue)
        }
    }
}

/// The parameters of RSA PSS: the fields of `CK_RSA_PKCS_PSS_PARAMS`.
#[derive(Debug, Clone, PartialEq, Eq)]
pub struct PkcsPssParams {
    pub hash_alg: MechanismType,
    pub mgf: PkcsMgfType,
    pub s_len: Ulong,
}

impl From<PkcsPssParams> for Mechanism {
    fn from(pkcs_pss_params: PkcsPssParams) -> (mechanism: Self)
        ensures
            mechanism == Mechanism::RsaPkcsPss(pkcs_pss_params),
    {
        Mechanism::RsaPkcsPss(pkcs_pss_params)
    }
}

impl vstd::std_specs::convert::FromSpecImpl<PkcsPssParams> for Mechanism {
    open spec fn obeys_from_spec() -> bool {
        true
    }

    open spec fn from_spec(pkcs_pss_params: PkcsPssParams) -> Self {
        Mechanism::RsaPkcsPss(pkcs_pss_params)
    }
}

/// The parameters of RSA OAEP: the fields of `CK_RSA_PKCS_OAEP_PARAMS`, with the label owned.
#[derive(Debug, Clone, PartialEq, Eq)]
pub struct PkcsOaepParams {
    pub hash_alg: MechanismType,
    pub mgf: PkcsMgfType,
    pub source: PkcsOaepSourceType,
    pub source_data: Vec<u8>,
}

impl From<PkcsOaepParams> for Mechanism {
    fn from(pkcs_oaep_params: PkcsOaepParams) -> (mechanism: Self)
        ensures
            mechanism == Mechanism::RsaPkcsOaep(pkcs_oaep_params),
    {
        Mechanism::RsaPkcsOaep(pkcs_oaep_params)
    }
}

impl vstd::std_specs::convert::FromSpecImpl<PkcsOaepParams> for Mechanism {
    open spec fn obeys_from_spec() -> bool {
        true
    }

    open spec fn from_spec(pkcs_oaep_params: PkcsOaepParams) -> Self {
        Mechanism::RsaPkcsOaep(pkcs_oaep_params)
    }
}

} // verus!
