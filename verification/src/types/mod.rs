//! The typed values that cross the boundary to the module.

pub mod byte_order;
pub mod function;
pub mod locking;
pub mod mechanism;
pub mod object;
pub mod session;
pub mod slot_token;

use crate::constants::{
    CKF_ARRAY_ATTRIBUTE, CKF_CLOCK_ON_TOKEN, CKF_DECRYPT, CKF_DERIVE, CKF_DIGEST, CKF_DONT_BLOCK,
    CKF_DUAL_CRYPTO_OPERATIONS, CKF_EC_COMPRESS, CKF_EC_F_P, CKF_EC_NAMEDCURVE, CKF_EC_UNCOMPRESS,
    CKF_ENCRYPT, CKF_EXCLUDE_CHALLENGE, CKF_EXCLUDE_COUNTER, CKF_EXCLUDE_PIN, CKF_EXCLUDE_TIME,
    CKF_EXTENSION, CKF_GENERATE, CKF_GENERATE_KEY_PAIR, CKF_HW, CKF_HW_SLOT,
    CKF_LIBRARY_CANT_CREATE_OS_THREADS, CKF_LOGIN_REQUIRED, CKF_NEXT_OTP, CKF_OS_LOCKING_OK,
    CKF_PROTECTED_AUTHENTICATION_PATH, CKF_REMOVABLE_DEVICE, CKF_RESTORE_KEY_NOT_NEEDED, CKF_RNG,
    CKF_RW_SESSION, CKF_SECONDARY_AUTHENTICATION, CKF_SERIAL_SESSION, CKF_SIGN, CKF_SIGN_RECOVER,
    CKF_SO_PIN_COUNT_LOW, CKF_SO_PIN_FINAL_TRY, CKF_SO_PIN_LOCKED, CKF_SO_PIN_TO_BE_CHANGED,
    CKF_TOKEN_INITIALIZED, CKF_TOKEN_PRESENT, CKF_UNWRAP, CKF_USER_FRIENDLY_OTP,
    CKF_USER_PIN_COUNT_LOW, CKF_USER_PIN_FINAL_TRY, CKF_USER_PIN_INITIALIZED, CKF_USER_PIN_LOCKED,
    CKF_USER_PIN_TO_BE_CHANGED, CKF_VERIFY, CKF_VERIFY_RECOVER, CKF_WRAP, CKF_WRITE_PROTECTED,
    CK_FALSE, CK_TRUE,
};
use crate::Error;
use vstd::prelude::*;

verus! {

/// A word of flag bits, as several structures of the ABI hold one.
#[derive(Debug, Clone, Copy, PartialEq, Eq)]
pub struct Flags {
    flags: u64,
}

impl View for Flags {
    type V = u64;

    closed spec fn view(&self) -> u64 {
        self.flags
    }
}

/// The word `flags` with the bits of `flag` set, or cleared.
pub open spec fn with_flag(flags: u64, flag: u64, b: bool) -> u64 {
    if b {
        flags | flag
    } else {
        flags & !flag
    }
}

impl Default for Flags {
    fn default() -> (flags: Self)
        ensures
            flags@ == 0,
    {
        Flags { flags: 0 }
    }
}

impl Flags {
    /// No bit set.
    pub fn new() -> (flags: Self)
        ensures
            flags@ == 0,
    {
        Flags::default()
    }

    fn set_flag(&mut self, flag: u64, b: bool)
        ensures
            final(self)@ == with_flag(old(self)@, flag, b),
    {
        if b {
            self.flags |= flag;
        } else {
            self.flags &= !flag;
        }
    }

    pub fn set_token_present(&mut self, b: bool) -> (flags: &mut Self)
        ensures
            flags@ == with_flag(old(self)@, CKF_TOKEN_PRESENT, b),
            *final(self) == *final(flags),
    {
        self.set_flag(CKF_TOKEN_PRESENT, b);
        self
    }

    pub fn set_removable_device(&mut self, b: bool) -> (flags: &mut Self)
        ensures
            flags@ == with_flag(old(self)@, CKF_REMOVABLE_DEVICE, b),
            *final(self) == *final(flags),
    {
        self.set_flag(CKF_REMOVABLE_DEVICE, b);
        self
    }

    pub fn set_hw_slot(&mut self, b: bool) -> (flags: &mut Self)
        ensures
            flags@ == with_flag(old(self)@, CKF_HW_SLOT, b),
            *final(self) == *final(flags),
    {
        self.set_flag(CKF_HW_SLOT, b);
        self
    }

    pub fn set_array_attribute(&mut self, b: bool) -> (flags: &mut Self)
        ensures
            flags@ == with_flag(old(self)@, CKF_ARRAY_ATTRIBUTE, b),
            *final(self) == *final(flags),
    {
        self.set_flag(CKF_ARRAY_ATTRIBUTE, b);
        self
    }

    pub fn set_rng(&mut self, b: bool) -> (flags: &mut Self)
        ensures
            flags@ == with_flag(old(self)@, CKF_RNG, b),
            *final(self) == *final(flags),
    {
        self.set_flag(CKF_RNG, b);
        self
    }

    pub fn set_write_protected(&mut self, b: bool) -> (flags: &mut Self)
        ensures
            flags@ == with_flag(old(self)@, CKF_WRITE_PROTECTED, b),
            *final(self) == *final(flags),
    {
        self.set_flag(CKF_WRITE_PROTECTED, b);
        self
    }

    pub fn set_login_required(&mut self, b: bool) -> (flags: &mut Self)
        ensures
            flags@ == with_flag(old(self)@, CKF_LOGIN_REQUIRED, b),
            *final(self) == *final(flags),
    {
        self.set_flag(CKF_LOGIN_REQUIRED, b);
        self
    }

    pub fn set_user_pin_initialized(&mut self, b: bool) -> (flags: &mut Self)
        ensures
            flags@ == with_flag(old(self)@, CKF_USER_PIN_INITIALIZED, b),
            *final(self) == *final(flags),
    {
        self.set_flag(CKF_USER_PIN_INITIALIZED, b);
        self
    }

    pub fn set_restore_key_not_needed(&mut self, b: bool) -> (flags: &mut Self)
        ensures
            flags@ == with_flag(old(self)@, CKF_RESTORE_KEY_NOT_NEEDED, b),
            *final(self) == *final(flags),
    {
        self.set_flag(CKF_RESTORE_KEY_NOT_NEEDED, b);
        self
    }

    pub fn set_clock_on_token(&mut self, b: bool) -> (flags: &mut Self)
        ensures
            flags@ == with_flag(old(self)@, CKF_CLOCK_ON_TOKEN, b),
            *final(self) == *final(flags),
    {
        self.set_flag(CKF_CLOCK_ON_TOKEN, b);
        self
    }

    pub fn set_protected_authentication_path(&mut self, b: bool) -> (flags: &mut Self)
        ensures
            flags@ == with_flag(old(self)@, CKF_PROTECTED_AUTHENTICATION_PATH, b),
            *final(self) == *final(flags),
    {
        self.set_flag(CKF_PROTECTED_AUTHENTICATION_PATH, b);
        self
    }

    pub fn set_dual_crypto_operations(&mut self, b: bool) -> (flags: &mut Self)
        ensures
            flags@ == with_flag(old(self)@, CKF_DUAL_CRYPTO_OPERATIONS, b),
            *final(self) == *final(flags),
    {
        self.set_flag(CKF_DUAL_CRYPTO_OPERATIONS, b);
        self
    }

    pub fn set_token_initialized(&mut self, b: bool) -> (flags: &mut Self)
        ensures
            flags@ == with_flag(old(self)@, CKF_TOKEN_INITIALIZED, b),
            *final(self) == *final(flags),
    {
        self.set_flag(CKF_TOKEN_INITIALIZED, b);
        self
    }

    pub fn set_secondary_authentication(&mut self, b: bool) -> (flags: &mut Self)
        ensures
            flags@ == with_flag(old(self)@, CKF_SECONDARY_AUTHENTICATION, b),
            *final(self) == *final(flags),
    {
        self.set_flag(CKF_SECONDARY_AUTHENTICATION, b);
        self
    }

    pub fn set_user_pin_count_low(&mut self, b: bool) -> (flags: &mut Self)
        ensures
            flags@ == with_flag(old(self)@, CKF_USER_PIN_COUNT_LOW, b),
            *final(self) == *final(flags),
    {
        self.set_flag(CKF_USER_PIN_COUNT_LOW, b);
        self
    }

    pub fn set_user_pin_final_try(&mut self, b: bool) -> (flags: &mut Self)
        ensures
            flags@ == with_flag(old(self)@, CKF_USER_PIN_FINAL_TRY, b),
            *final(self) == *final(flags),
    {
        self.set_flag(CKF_USER_PIN_FINAL_TRY, b);
        self
    }

    pub fn set_user_pin_locked(&mut self, b: bool) -> (flags: &mut Self)
        ensures
            flags@ == with_flag(old(self)@, CKF_USER_PIN_LOCKED, b),
            *final(self) == *final(flags),
    {
        self.set_flag(CKF_USER_PIN_LOCKED, b);
        self
    }

    pub fn set_user_pin_to_be_changed(&mut self, b: bool) -> (flags: &mut Self)
        ensures
            flags@ == with_flag(old(self)@, CKF_USER_PIN_TO_BE_CHANGED, b),
            *final(self) == *final(flags),
    {
        self.set_flag(CKF_USER_PIN_TO_BE_CHANGED, b);
        self
    }

    pub fn set_so_pin_count_low(&mut self, b: bool) -> (flags: &mut Self)
        ensures
            flags@ == with_flag(old(self)@, CKF_SO_PIN_COUNT_LOW, b),
            *final(self) == *final(flags),
    {
        self.set_flag(CKF_SO_PIN_COUNT_LOW, b);
        self
    }

    pub fn set_so_pin_final_try(&mut self, b: bool) -> (flags: &mut Self)
        ensures
            flags@ == with_flag(old(self)@, CKF_SO_PIN_FINAL_TRY, b),
            *final(self) == *final(flags),
    {
        self.set_flag(CKF_SO_PIN_FINAL_TRY, b);
        self
    }

    pub fn set_so_pin_locked(&mut self, b: bool) -> (flags: &mut Self)
        ensures
            flags@ == with_flag(old(self)@, CKF_SO_PIN_LOCKED, b),
            *final(self) == *final(flags),
    {
        self.set_flag(CKF_SO_PIN_LOCKED, b);
        self
    }

    pub fn set_so_pin_to_be_changed(&mut self, b: bool) -> (flags: &mut Self)
        ensures
            flags@ == with_flag(old(self)@, CKF_SO_PIN_TO_BE_CHANGED, b),
            *final(self) == *final(flags),
    {
        self.set_flag(CKF_SO_PIN_TO_BE_CHANGED, b);
        self
    }

    pub fn set_rw_session(&mut self, b: bool) -> (flags: &mut Self)
        ensures
            flags@ == with_flag(old(self)@, CKF_RW_SESSION, b),
            *final(self) == *final(flags),
    {
        self.set_flag(CKF_RW_SESSION, b);
        self
    }

    pub fn set_serial_session(&mut self, b: bool) -> (flags: &mut Self)
        ensures
            flags@ == with_flag(old(self)@, CKF_SERIAL_SESSION, b),
            *final(self) == *final(flags),
    {
        self.set_flag(CKF_SERIAL_SESSION, b);
        self
    }

    pub fn set_next_otp(&mut self, b: bool) -> (flags: &mut Self)
        ensures
            flags@ == with_flag(old(self)@, CKF_NEXT_OTP, b),
            *final(self) == *final(flags),
    {
        self.set_flag(CKF_NEXT_OTP, b);
        self
    }

    pub fn set_exclude_time(&mut self, b: bool) -> (flags: &mut Self)
        ensures
            flags@ == with_flag(old(self)@, CKF_EXCLUDE_TIME, b),
            *final(self) == *final(flags),
    {
        self.set_flag(CKF_EXCLUDE_TIME, b);
        self
    }

    pub fn set_exclude_counter(&mut self, b: bool) -> (flags: &mut Self)
        ensures
            flags@ == with_flag(old(self)@, CKF_EXCLUDE_COUNTER, b),
            *final(self) == *final(flags),
    {
        self.set_flag(CKF_EXCLUDE_COUNTER, b);
        self
    }

    pub fn set_exclude_challenge(&mut self, b: bool) -> (flags: &mut Self)
        ensures
            flags@ == with_flag(old(self)@, CKF_EXCLUDE_CHALLENGE, b),
            *final(self) == *final(flags),
    {
        self.set_flag(CKF_EXCLUDE_CHALLENGE, b);
        self
    }

    pub fn set_exclude_pin(&mut self, b: bool) -> (flags: &mut Self)
        ensures
            flags@ == with_flag(old(self)@, CKF_EXCLUDE_PIN, b),
            *final(self) == *final(flags),
    {
        self.set_flag(CKF_EXCLUDE_PIN, b);
        self
    }

    pub fn set_user_friendly_otp(&mut self, b: bool) -> (flags: &mut Self)
        ensures
            flags@ == with_flag(old(self)@, CKF_USER_FRIENDLY_OTP, b),
            *final(self) == *final(flags),
    {
        self.set_flag(CKF_USER_FRIENDLY_OTP, b);
        self
    }

    pub fn set_hw(&mut self, b: bool) -> (flags: &mut Self)
        ensures
            flags@ == with_flag(old(self)@, CKF_HW, b),
            *final(self) == *final(flags),
    {
        self.set_flag(CKF_HW, b);
        self
    }

    pub fn set_encrypt(&mut self, b: bool) -> (flags: &mut Self)
        ensures
            flags@ == with_flag(old(self)@, CKF_ENCRYPT, b),
            *final(self) == *final(flags),
    {
        self.set_flag(CKF_ENCRYPT, b);
        self
    }

    pub fn set_decrypt(&mut self, b: bool) -> (flags: &mut Self)
        ensures
            flags@ == with_flag(old(self)@, CKF_DECRYPT, b),
            *final(self) == *final(flags),
    {
        self.set_flag(CKF_DECRYPT, b);
        self
    }

    pub fn set_digest(&mut self, b: bool) -> (flags: &mut Self)
        ensures
            flags@ == with_flag(old(self)@, CKF_DIGEST, b),
            *final(self) == *final(flags),
    {
        self.set_flag(CKF_DIGEST, b);
        self
    }

    pub fn set_sign(&mut self, b: bool) -> (flags: &mut Self)
        ensures
            flags@ == with_flag(old(self)@, CKF_SIGN, b),
            *final(self) == *final(flags),
    {
        self.set_flag(CKF_SIGN, b);
        self
    }

    pub fn set_sign_recover(&mut self, b: bool) -> (flags: &mut Self)
        ensures
            flags@ == with_flag(old(self)@, CKF_SIGN_RECOVER, b),
            *final(self) == *final(flags),
    {
        self.set_flag(CKF_SIGN_RECOVER, b);
        self
    }

    pub fn set_verify(&mut self, b: bool) -> (flags: &mut Self)
        ensures
            flags@ == with_flag(old(self)@, CKF_VERIFY, b),
            *final(self) == *final(flags),
    {
        self.set_flag(CKF_VERIFY, b);
        self
    }

    pub fn set_verify_recover(&mut self, b: bool) -> (flags: &mut Self)
        ensures
            flags@ == with_flag(old(self)@, CKF_VERIFY_RECOVER, b),
            *final(self) == *final(flags),
    {
        self.set_flag(CKF_VERIFY_RECOVER, b);
        self
    }

    pub fn set_generate(&mut self, b: bool) -> (flags: &mut Self)
        ensures
            flags@ == with_flag(old(self)@, CKF_GENERATE, b),
            *final(self) == *final(flags),
    {
        self.set_flag(CKF_GENERATE, b);
        self
    }

    pub fn set_generate_key_pair(&mut self, b: bool) -> (flags: &mut Self)
        ensures
            flags@ == with_flag(old(self)@, CKF_GENERATE_KEY_PAIR, b),
            *final(self) == *final(flags),
    {
        self.set_flag(CKF_GENERATE_KEY_PAIR, b);
        self
    }

    pub fn set_wrap(&mut self, b: bool) -> (flags: &mut Self)
        ensures
            flags@ == with_flag(old(self)@, CKF_WRAP, b),
            *final(self) == *final(flags),
    {
        self.set_flag(CKF_WRAP, b);
        self
    }

    pub fn set_unwrap(&mut self, b: bool) -> (flags: &mut Self)
        ensures
            flags@ == with_flag(old(self)@, CKF_UNWRAP, b),
            *final(self) == *final(flags),
    {
        self.set_flag(CKF_UNWRAP, b);
        self
    }

    pub fn set_derive(&mut self, b: bool) -> (flags: &mut Self)
        ensures
            flags@ == with_flag(old(self)@, CKF_DERIVE, b),
            *final(self) == *final(flags),
    {
        self.set_flag(CKF_DERIVE, b);
        self
    }

    pub fn set_extension(&mut self, b: bool) -> (flags: &mut Self)
        ensures
            flags@ == with_flag(old(self)@, CKF_EXTENSION, b),
            *final(self) == *final(flags),
    {
        self.set_flag(CKF_EXTENSION, b);
        self
    }

    pub fn set_ec_f_p(&mut self, b: bool) -> (flags: &mut Self)
        ensures
            flags@ == with_flag(old(self)@, CKF_EC_F_P, b),
            *final(self) == *final(flags),
    {
        self.set_flag(CKF_EC_F_P, b);
        self
    }

    pub fn set_ec_namedcurve(&mut self, b: bool) -> (flags: &mut Self)
        ensures
            flags@ == with_flag(old(self)@, CKF_EC_NAMEDCURVE, b),
            *final(self) == *final(flags),
    {
        self.set_flag(CKF_EC_NAMEDCURVE, b);
        self
    }

    pub fn set_ec_uncompress(&mut self, b: bool) -> (flags: &mut Self)
        ensures
            flags@ == with_flag(old(self)@, CKF_EC_UNCOMPRESS, b),
            *final(self) == *final(flags),
    {
        self.set_flag(CKF_EC_UNCOMPRESS, b);
        self
    }

    pub fn set_ec_compress(&mut self, b: bool) -> (flags: &mut Self)
        ensures
            flags@ == with_flag(old(self)@, CKF_EC_COMPRESS, b),
            *final(self) == *final(flags),
    {
        self.set_flag(CKF_EC_COMPRESS, b);
        self
    }

    pub fn set_dont_block(&mut self, b: bool) -> (flags: &mut Self)
        ensures
            flags@ == with_flag(old(self)@, CKF_DONT_BLOCK, b),
            *final(self) == *final(flags),
    {
        self.set_flag(CKF_DONT_BLOCK, b);
        self
    }

    pub fn set_library_cant_create_os_threads(&mut self, b: bool) -> (flags: &mut Self)
        ensures
            flags@ == with_flag(old(self)@, CKF_LIBRARY_CANT_CREATE_OS_THREADS, b),
            *final(self) == *final(flags),
    {
        self.set_flag(CKF_LIBRARY_CANT_CREATE_OS_THREADS, b);
        self
    }

    pub fn set_os_locking_ok(&mut self, b: bool) -> (flags: &mut Self)
        ensures
            flags@ == with_flag(old(self)@, CKF_OS_LOCKING_OK, b),
            *final(self) == *final(flags),
    {
        self.set_flag(CKF_OS_LOCKING_OK, b);
        self
    }
}

impl From<Flags> for u64 {
    fn from(flags: Flags) -> (val: Self)
        ensures
            val == flags@,
    {
        flags.flags
    }
}

impl vstd::std_specs::convert::FromSpecImpl<Flags> for u64 {
    open spec fn obeys_from_spec() -> bool {
        true
    }

    open spec fn from_spec(flags: Flags) -> Self {
        flags@
    }
}

/// A `CK_BBOOL`: one byte that is either `CK_FALSE` or `CK_TRUE`.
#[derive(Debug, Clone, Copy, PartialEq, Eq, Structural)]
pub enum Bbool {
    False,
    True,
}

impl View for Bbool {
    type V = bool;

    open spec fn view(&self) -> bool {
        *self == Bbool::True
    }
}

/// The `Bbool` that a byte stands for, where it stands for one.
pub open spec fn bbool_of_byte(byte: u8) -> Result<Bbool, Error> {
    if byte == CK_FALSE {
        Ok(Bbool::False)
    } else if byte == CK_TRUE {
        Ok(Bbool::True)
    } else {
        Err(Error::NotSupported)
    }
}

/// The `Bbool` that a buffer holds: it must be one byte long, and that byte a `CK_BBOOL`.
pub open spec fn bbool_of_bytes(bytes: Seq<u8>) -> Result<Bbool, Error> {
    if bytes.len() != 1 {
        Err(Error::TryFromSlice)
    } else {
        bbool_of_byte(bytes[0])
    }
}

/// The byte that a `Bbool` is sent as.
pub open spec fn byte_of_bbool(bbool: Bbool) -> u8 {
    match bbool {
        Bbool::False => CK_FALSE,
        Bbool::True => CK_TRUE,
    }
}

impl<'a> TryFrom<&'a [u8]> for Bbool {
    type Error = Error;

    fn try_from(slice: &'a [u8]) -> (r: Result<Self, Error>)
        ensures
            r == bbool_of_bytes(slice@),
    {
        if slice.len() != 1 {
            Err(Error::TryFromSlice)
        } else {
            Bbool::try_from(slice[0])
        }
    }
}

impl<'a> vstd::std_specs::convert::TryFromSpecImpl<&'a [u8]> for Bbool {
    open spec fn obeys_try_from_spec() -> bool {
        true
    }

    open spec fn try_from_spec(slice: &'a [u8]) -> Result<Self, Error> {
        bbool_of_bytes(slice@)
    }
}

impl From<Bbool> for u8 {
    fn from(bbool: Bbool) -> (byte: Self)
        ensures
            byte == byte_of_bbool(bbool),
    {
        match bbool {
            Bbool::False => CK_FALSE,
            Bbool::True => CK_TRUE,
        }
    }
}

impl vstd::std_specs::convert::FromSpecImpl<Bbool> for u8 {
    open spec fn obeys_from_spec() -> bool {
        true
    }

    open spec fn from_spec(bbool: Bbool) -> Self {
        byte_of_bbool(bbool)
    }
}

impl From<bool> for Bbool {
    fn from(val: bool) -> (bbool: Self)
        ensures
            bbool@ == val,
    {
        if val {
            Bbool::True
        } else {
            Bbool::False
        }
    }
}

impl vstd::std_specs::convert::FromSpecImpl<bool> for Bbool {
    open spec fn obeys_from_spec() -> bool {
        true
    }

    open spec fn from_spec(val: bool) -> Self {
        if val {
            Bbool::True
        } else {
            Bbool::False
        }
    }
}

impl TryFrom<u8> for Bbool {
    type Error = Error;

    fn try_from(bbool: u8) -> (r: Result<Self, Error>)
        ensures
            r == bbool_of_byte(bbool),
    {
        if bbool == CK_FALSE {
            Ok(Bbool::False)
        } else if bbool == CK_TRUE {
            Ok(Bbool::True)
        } else {
            Err(Error::NotSupported)
        }
    }
}

impl vstd::std_specs::convert::TryFromSpecImpl<u8> for Bbool {
    open spec fn obeys_try_from_spec() -> bool {
        true
    }

    open spec fn try_from_spec(bbool: u8) -> Result<Self, Error> {
        bbool_of_byte(bbool)
    }
}

/// A `CK_ULONG` that stands for a number, not for a tag or a handle.
#[derive(Debug, Clone, Copy, PartialEq, Eq, Structural)]
pub struct Ulong {
    pub val: u64,
}

impl View for Ulong {
    type V = u64;

    open spec fn view(&self) -> u64 {
        self.val
    }
}

impl core::ops::Deref for Ulong {
    type Target = u64;

    fn deref(&self) -> (val: &u64)
        ensures
            *val == self.val,
    {
        &self.val
    }
}

impl From<Ulong> for u64 {
    fn from(ulong: Ulong) -> (val: Self)
        ensures
            val == ulong.val,
    {
        ulong.val
    }
}

impl vstd::std_specs::convert::FromSpecImpl<Ulong> for u64 {
    open spec fn obeys_from_spec() -> bool {
        true
    }

    open spec fn from_spec(ulong: Ulong) -> Self {
        ulong.val
    }
}

impl From<u64> for Ulong {
    fn from(ulong: u64) -> (r: Self)
        ensures
            r.val == ulong,
    {
        Ulong { val: ulong }
    }
}

impl vstd::std_specs::convert::FromSpecImpl<u64> for Ulong {
    open spec fn obeys_from_spec() -> bool {
        true
    }

    open spec fn from_spec(ulong: u64) -> Self {
        Ulong { val: ulong }
    }
}

} // verus!
