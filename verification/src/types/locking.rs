//! How the module is to guard its state against several threads.

use crate::constants::CKF_OS_LOCKING_OK;
use crate::types::Flags;
use vstd::prelude::*;

verus! {

/// The choice that is made when the module is initialised.
#[derive(Debug, Clone, Copy, PartialEq, Eq, Structural)]
pub enum CInitializeArgs {
    /// The module will not be called from several threads at once.
    NoThreads,
    /// The module may be called from several threads, and may lock with the means of the
    /// operating system.
    OsThreads,
}

/// The arguments of the initialisation as the module receives them: a `CK_C_INITIALIZE_ARGS`
/// whose four mutex callbacks are absent and whose reserved pointer is null, which leaves the
/// flags.
#[derive(Debug, Clone, Copy, PartialEq, Eq, Structural)]
pub struct RawInitializeArgs {
    pub flags: u64,
}

/// The flags that go with a choice.
pub open spec fn initialize_flags(c_initialize_args: CInitializeArgs) -> u64 {
    match c_initialize_args {
        CInitializeArgs::NoThreads => 0,
        CInitializeArgs::OsThreads => CKF_OS_LOCKING_OK,
    }
}

impl From<CInitializeArgs> for RawInitializeArgs {
    fn from(c_initialize_args: CInitializeArgs) -> (args: Self)
        ensures
            args.flags == initialize_flags(c_initialize_args),
    {
        let mut flags = Flags::default();
        match c_initialize_args {
            CInitializeArgs::NoThreads => {
                flags.set_os_locking_ok(false);
                assert(0u64 & !2u64 == 0) by (bit_vector);
                RawInitializeArgs { flags: flags.into() }
            },
            CInitializeArgs::OsThreads => {
                flags.set_os_locking_ok(true);
                assert(0u64 | 2u64 == 2) by (bit_vector);
                RawInitializeArgs { flags: flags.into() }
            },
        }
    }
}

impl vstd::std_specs::convert::FromSpecImpl<CInitializeArgs> for RawInitializeArgs {
    open spec fn obeys_from_spec() -> bool {
        true
    }

    open spec fn from_spec(c_initialize_args: CInitializeArgs) -> Self {
        RawInitializeArgs { flags: initialize_flags(c_initialize_args) }
    }
}

} // verus!
