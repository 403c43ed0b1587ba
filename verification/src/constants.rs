//! Numeric constants of the Cryptoki ABI: return values, attribute types, flag bits, mechanism and
//! key identifiers. Every word of that ABI is a `CK_ULONG`, held here as a `u64`.

use vstd::prelude::*;

verus! {

/// Width in bytes of a `CK_ULONG` in a template.
pub const ULONG_SIZE: usize = 8;

/// Width in bytes of a `CK_BBOOL` in a template.
pub const BBOOL_SIZE: usize = 1;

pub const CK_FALSE: u8 = 0;

pub const CK_TRUE: u8 = 1;

/// Length that the module writes for an attribute whose value it will not give.
pub const CK_UNAVAILABLE_INFORMATION: u64 = 0xFFFF_FFFF_FFFF_FFFF;

// Return values.
pub const CKR_OK: u64 = 0x0;

pub const CKR_GENERAL_ERROR: u64 = 0x5;

pub const CKR_ATTRIBUTE_SENSITIVE: u64 = 0x11;

pub const CKR_ATTRIBUTE_TYPE_INVALID: u64 = 0x12;

pub const CKR_KEY_HANDLE_INVALID: u64 = 0x60;

pub const CKR_OBJECT_HANDLE_INVALID: u64 = 0x82;

pub const CKR_SESSION_HANDLE_INVALID: u64 = 0xB3;

pub const CKR_SIGNATURE_INVALID: u64 = 0xC0;

pub const CKR_BUFFER_TOO_SMALL: u64 = 0x150;

pub const CKR_CRYPTOKI_NOT_INITIALIZED: u64 = 0x190;

pub const CKR_CRYPTOKI_ALREADY_INITIALIZED: u64 = 0x191;

// Attribute types.
pub const CKA_CLASS: u64 = 0x0;

pub const CKA_TOKEN: u64 = 0x1;

pub const CKA_PRIVATE: u64 = 0x2;

pub const CKA_LABEL: u64 = 0x3;

pub const CKA_VALUE: u64 = 0x11;

pub const CKA_KEY_TYPE: u64 = 0x100;

pub const CKA_ID: u64 = 0x102;

pub const CKA_SENSITIVE: u64 = 0x103;

pub const CKA_ENCRYPT: u64 = 0x104;

pub const CKA_DECRYPT: u64 = 0x105;

pub const CKA_WRAP: u64 = 0x106;

pub const CKA_UNWRAP: u64 = 0x107;

pub const CKA_SIGN: u64 = 0x108;

pub const CKA_SIGN_RECOVER: u64 = 0x109;

pub const CKA_VERIFY: u64 = 0x10A;

pub const CKA_VERIFY_RECOVER: u64 = 0x10B;

pub const CKA_DERIVE: u64 = 0x10C;

pub const CKA_MODULUS: u64 = 0x120;

pub const CKA_MODULUS_BITS: u64 = 0x121;

pub const CKA_PUBLIC_EXPONENT: u64 = 0x122;

pub const CKA_PRIME: u64 = 0x130;

pub const CKA_BASE: u64 = 0x132;

pub const CKA_VALUE_LEN: u64 = 0x161;

pub const CKA_EXTRACTABLE: u64 = 0x162;

pub const CKA_MODIFIABLE: u64 = 0x170;

pub const CKA_COPYABLE: u64 = 0x171;

pub const CKA_ALLOWED_MECHANISMS: u64 = 0x4000_0600;

// Object classes.
pub const CKO_DATA: u64 = 0x0;

pub const CKO_CERTIFICATE: u64 = 0x1;

pub const CKO_PUBLIC_KEY: u64 = 0x2;

pub const CKO_PRIVATE_KEY: u64 = 0x3;

pub const CKO_SECRET_KEY: u64 = 0x4;

// Key types.
pub const CKK_RSA: u64 = 0x0;

pub const CKK_DSA: u64 = 0x1;

pub const CKK_DH: u64 = 0x2;

pub const CKK_EC: u64 = 0x3;

pub const CKK_GENERIC_SECRET: u64 = 0x10;

pub const CKK_AES: u64 = 0x1F;

// User types.
pub const CKU_SO: u64 = 0x0;

pub const CKU_USER: u64 = 0x1;

pub const CKU_CONTEXT_SPECIFIC: u64 = 0x2;

// Mechanisms.
pub const CKM_RSA_PKCS_KEY_PAIR_GEN: u64 = 0x0;

pub const CKM_RSA_PKCS: u64 = 0x1;

pub const CKM_RSA_PKCS_OAEP: u64 = 0x9;

pub const CKM_RSA_PKCS_PSS: u64 = 0xD;

pub const CKM_SHA_1: u64 = 0x220;

pub const CKM_SHA256: u64 = 0x250;

pub const CKM_SHA384: u64 = 0x260;

pub const CKM_SHA512: u64 = 0x270;

// Mask generation functions and the sources of an OAEP label.
pub const CKG_MGF1_SHA1: u64 = 0x1;

pub const CKG_MGF1_SHA256: u64 = 0x2;

pub const CKG_MGF1_SHA384: u64 = 0x3;

pub const CKG_MGF1_SHA512: u64 = 0x4;

pub const CKG_MGF1_SHA224: u64 = 0x5;

pub const CKZ_DATA_SPECIFIED: u64 = 0x1;

// Flag bits. One bit has several names, one for each structure that it is a flag of.
pub const CKF_TOKEN_PRESENT: u64 = 0x1;

pub const CKF_REMOVABLE_DEVICE: u64 = 0x2;

pub const CKF_HW_SLOT: u64 = 0x4;

pub const CKF_ARRAY_ATTRIBUTE: u64 = 0x4000_0000;

pub const CKF_RNG: u64 = 0x1;

pub const CKF_WRITE_PROTECTED: u64 = 0x2;

pub const CKF_LOGIN_REQUIRED: u64 = 0x4;

pub const CKF_USER_PIN_INITIALIZED: u64 = 0x8;

pub const CKF_RESTORE_KEY_NOT_NEEDED: u64 = 0x20;

pub const CKF_CLOCK_ON_TOKEN: u64 = 0x40;

pub const CKF_PROTECTED_AUTHENTICATION_PATH: u64 = 0x100;

pub const CKF_DUAL_CRYPTO_OPERATIONS: u64 = 0x200;

pub const CKF_TOKEN_INITIALIZED: u64 = 0x400;

pub const CKF_SECONDARY_AUTHENTICATION: u64 = 0x800;

pub const CKF_USER_PIN_COUNT_LOW: u64 = 0x1_0000;

pub const CKF_USER_PIN_FINAL_TRY: u64 = 0x2_0000;

pub const CKF_USER_PIN_LOCKED: u64 = 0x4_0000;

pub const CKF_USER_PIN_TO_BE_CHANGED: u64 = 0x8_0000;

pub const CKF_SO_PIN_COUNT_LOW: u64 = 0x10_0000;

pub const CKF_SO_PIN_FINAL_TRY: u64 = 0x20_0000;

pub const CKF_SO_PIN_LOCKED: u64 = 0x40_0000;

pub const CKF_SO_PIN_TO_BE_CHANGED: u64 = 0x80_0000;

pub const CKF_RW_SESSION: u64 = 0x2;

pub const CKF_SERIAL_SESSION: u64 = 0x4;

pub const CKF_NEXT_OTP: u64 = 0x1;

pub const CKF_EXCLUDE_TIME: u64 = 0x2;

pub const CKF_EXCLUDE_COUNTER: u64 = 0x4;

pub const CKF_EXCLUDE_CHALLENGE: u64 = 0x8;

pub const CKF_EXCLUDE_PIN: u64 = 0x10;

pub const CKF_USER_FRIENDLY_OTP: u64 = 0x20;

pub const CKF_HW: u64 = 0x1;

pub const CKF_ENCRYPT: u64 = 0x100;

pub const CKF_DECRYPT: u64 = 0x200;

pub const CKF_DIGEST: u64 = 0x400;

pub const CKF_SIGN: u64 = 0x800;

pub const CKF_SIGN_RECOVER: u64 = 0x1000;

pub const CKF_VERIFY: u64 = 0x2000;

pub const CKF_VERIFY_RECOVER: u64 = 0x4000;

pub const CKF_GENERATE: u64 = 0x8000;

pub const CKF_GENERATE_KEY_PAIR: u64 = 0x1_0000;

pub const CKF_WRAP: u64 = 0x2_0000;

pub const CKF_UNWRAP: u64 = 0x4_0000;

pub const CKF_DERIVE: u64 = 0x8_0000;

pub const CKF_EXTENSION: u64 = 0x8000_0000;

pub const CKF_EC_F_P: u64 = 0x10_0000;

pub const CKF_EC_NAMEDCURVE: u64 = 0x80_0000;

pub const CKF_EC_UNCOMPRESS: u64 = 0x100_0000;

pub const CKF_EC_COMPRESS: u64 = 0x200_0000;

pub const CKF_DONT_BLOCK: u64 = 0x1;

pub const CKF_LIBRARY_CANT_CREATE_OS_THREADS: u64 = 0x1;

pub const CKF_OS_LOCKING_OK: u64 = 0x2;

} // verus!
