//! The taxonomy of return values: every native code is either success or one member of a closed
//! set of errors.

use crate::constants::{
    CKR_ATTRIBUTE_SENSITIVE, CKR_ATTRIBUTE_TYPE_INVALID, CKR_BUFFER_TOO_SMALL,
    CKR_CRYPTOKI_ALREADY_INITIALIZED, CKR_CRYPTOKI_NOT_INITIALIZED, CKR_KEY_HANDLE_INVALID,
    CKR_OBJECT_HANDLE_INVALID, CKR_OK, CKR_SESSION_HANDLE_INVALID, CKR_SIGNATURE_INVALID,
};
use crate::Error;
use vstd::prelude::*;

verus! {

/// What went wrong, as the module reported it.
#[derive(Debug, Clone, Copy, PartialEq, Eq, Structural)]
pub enum RvError {
    /// `CKR_GENERAL_ERROR`, and every code that has no member of its own.
    GeneralError,
    AttributeSensitive,
    AttributeTypeInvalid,
    KeyHandleInvalid,
    ObjectHandleInvalid,
    SessionHandleInvalid,
    SignatureInvalid,
    BufferTooSmall,
    CryptokiNotInitialised,
    CryptokiAlreadyInitialised,
}

/// A classified return value.
#[derive(Debug, Clone, Copy, PartialEq, Eq, Structural)]
pub enum Rv {
    Success,
    Error(RvError),
}

/// The member of the taxonomy that a native return value belongs to.
pub open spec fn classify(ck_rv: u64) -> Rv {
    if ck_rv == CKR_OK {
        Rv::Success
    } else if ck_rv == CKR_ATTRIBUTE_SENSITIVE {
        Rv::Error(RvError::AttributeSensitive)
    } else if ck_rv == CKR_ATTRIBUTE_TYPE_INVALID {
        Rv::Error(RvError::AttributeTypeInvalid)
    } else if ck_rv == CKR_KEY_HANDLE_INVALID {
        Rv::Error(RvError::KeyHandleInvalid)
    } else if ck_rv == CKR_OBJECT_HANDLE_INVALID {
        Rv::Error(RvError::ObjectHandleInvalid)
    } else if ck_rv == CKR_SESSION_HANDLE_INVALID {
        Rv::Error(RvError::SessionHandleInvalid)
    } else if ck_rv == CKR_SIGNATURE_INVALID {
        Rv::Error(RvError::SignatureInvalid)
    } else if ck_rv == CKR_BUFFER_TOO_SMALL {
        Rv::Error(RvError::BufferTooSmall)
    } else if ck_rv == CKR_CRYPTOKI_NOT_INITIALIZED {
        Rv::Error(RvError::CryptokiNotInitialised)
    } else if ck_rv == CKR_CRYPTOKI_ALREADY_INITIALIZED {
        Rv::Error(RvError::CryptokiAlreadyInitialised)
    } else {
        Rv::Error(RvError::GeneralError)
    }
}

/// What `to_result` makes of a classified return value.
pub open spec fn rv_result(rv: Rv) -> Result<(), Error> {
    match rv {
        Rv::Success => Ok(()),
        Rv::Error(rv_error) => Err(Error::Pkcs11(rv_error)),
    }
}

impl From<u64> for Rv {
    fn from(ck_rv: u64) -> (rv: Self)
        ensures
            rv == classify(ck_rv),
    {
        if ck_rv == CKR_OK {
            Rv::Success
        } else if ck_rv == CKR_ATTRIBUTE_SENSITIVE {
            Rv::Error(RvError::AttributeSensitive)
        } else if ck_rv == CKR_ATTRIBUTE_TYPE_INVALID {
            Rv::Error(RvError::AttributeTypeInvalid)
        } else if ck_rv == CKR_KEY_HANDLE_INVALID {
            Rv::Error(RvError::KeyHandleInvalid)
        } else if ck_rv == CKR_OBJECT_HANDLE_INVALID {
            Rv::Error(RvError::ObjectHandleInvalid)
        } else if ck_rv == CKR_SESSION_HANDLE_INVALID {
            Rv::Error(RvError::SessionHandleInvalid)
        } else if ck_rv == CKR_SIGNATURE_INVALID {
            Rv::Error(RvError::SignatureInvalid)
        } else if ck_rv == CKR_BUFFER_TOO_SMALL {
            Rv::Error(RvError::BufferTooSmall)
        } else if ck_rv == CKR_CRYPTOKI_NOT_INITIALIZED {
            Rv::Error(RvError::CryptokiNotInitialised)
        } else if ck_rv == CKR_CRYPTOKI_ALREADY_INITIALIZED {
            Rv::Error(RvError::CryptokiAlreadyInitialised)
        } else {
            Rv::Error(RvError::GeneralError)
        }
    }
}

impl vstd::std_specs::convert::FromSpecImpl<u64> for Rv {
    open spec fn obeys_from_spec() -> bool {
        true
    }

    open spec fn from_spec(ck_rv: u64) -> Self {
        classify(ck_rv)
    }
}

impl From<RvError> for Error {
    fn from(rv_error: RvError) -> (e: Self)
        ensures
            e == Error::Pkcs11(rv_error),
    {
        Error::Pkcs11(rv_error)
    }
}

impl vstd::std_specs::convert::FromSpecImpl<RvError> for Error {
    open spec fn obeys_from_spec() -> bool {
        true
    }

    open spec fn from_spec(rv_error: RvError) -> Self {
        Error::Pkcs11(rv_error)
    }
}

impl Rv {
    /// Whether the value is the one success.
    pub fn is_ok(&self) -> (ok: bool)
        ensures
            ok == (*self == Rv::Success),
    {
        match self {
            Rv::Success => true,
            Rv::Error(_) => false,
        }
    }

    /// Success becomes `Ok(())`, an error the library's error of the same member.
    pub fn to_result(self) -> (r: Result<(), Error>)
        ensures
            r == rv_result(self),
    {
        match self {
            Rv::Success => Ok(()),
            Rv::Error(rv_error) => Err(Error::Pkcs11(rv_error)),
        }
    }
}

/// Success is the classification of exactly one native value.
pub proof fn lemma_one_value_is_ok(ck_rv: u64)
    ensures
        classify(ck_rv) == Rv::Success <==> ck_rv == CKR_OK,
        classify(ck_rv) != Rv::Success ==> classify(ck_rv) is Error,
{
}

} // verus!
