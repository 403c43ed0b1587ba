//! Initialising and finalising the module.

use crate::gateway::{Call, Plain};
use crate::types::locking::{initialize_flags, CInitializeArgs, RawInitializeArgs};
use crate::Pkcs11;
use vstd::prelude::*;

verus! {

impl Pkcs11 {
    /// Initialises the module, with the choice of how it is to lock.
    pub fn initialize(&self, init_args: CInitializeArgs) -> (op: Plain<'_>)
        ensures
            op.client == self,
            op.request == (Call::Initialize {
                args: RawInitializeArgs { flags: initialize_flags(init_args) },
            }),
    {
        Plain { client: self, request: Call::Initialize { args: init_args.into() } }
    }

    /// Finalises the module. Whether a second finalisation succeeds is up to the module.
    pub fn finalize(&self) -> (op: Plain<'_>)
        ensures
            op.client == self,
            op.request == Call::Finalize,
    {
        Plain { client: self, request: Call::Finalize }
    }
}

} // verus!
