//! Decrypting data.

use crate::functions::variable_output::{Transfer, TransferKind, TransferPhase};
use crate::types::mechanism::Mechanism;
use crate::types::object::ObjectHandle;
use crate::types::session::Session;
use crate::Pkcs11;
use vstd::prelude::*;

verus! {

impl Pkcs11 {
    /// Decrypts data in one piece with a key.
    pub fn decrypt<'a>(
        &'a self,
        session: &Session,
        mechanism: &'a Mechanism,
        key: ObjectHandle,
        encrypted_data: &'a [u8],
    ) -> (op: Transfer<'a>)
        ensures
            op == (Transfer {
                client: self,
                kind: TransferKind::Decrypt,
                session: session.handle(),
                mechanism,
                key: key@,
                data: encrypted_data,
                phase: TransferPhase::Init,
            }),
    {
        Transfer {
            client: self,
            kind: TransferKind::Decrypt,
            session: session.handle(),
            mechanism,
            key: key.handle(),
            data: encrypted_data,
            phase: TransferPhase::Init,
        }
    }
}

} // verus!
