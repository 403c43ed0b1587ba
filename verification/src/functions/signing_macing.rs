//! Signing data and verifying signatures.

use crate::functions::variable_output::{Transfer, TransferKind, TransferPhase};
use crate::gateway::{Call, Function, Operation, Reply, Step};
use crate::types::mechanism::Mechanism;
use crate::types::object::ObjectHandle;
use crate::types::session::Session;
use crate::{Error, Pkcs11};
use vstd::prelude::*;

verus! {

/// Where a verification stands.
#[derive(Debug, Clone, Copy, PartialEq, Eq, Structural)]
pub enum VerifyPhase {
    /// The mechanism and the key are to be bound to the session.
    Init,
    /// The signature is to be checked.
    Check,
}

/// The verification of a signature over data in one piece: the mechanism and the key are
/// bound to the session, then the module checks the signature.
#[derive(Debug, Clone, Copy)]
pub struct Verify<'a> {
    pub client: &'a Pkcs11,
    pub session: u64,
    pub mechanism: &'a Mechanism,
    pub key: u64,
    pub data: &'a [u8],
    pub signature: &'a [u8],
    pub phase: VerifyPhase,
}

impl<'a> Verify<'a> {
    /// The call that the verification asks for next.
    pub open spec fn pending(&self) -> Call<'a> {
        match self.phase {
            VerifyPhase::Init => Call::VerifyInit {
                session: self.session,
                mechanism: self.mechanism,
                key: self.key,
            },
            VerifyPhase::Check => Call::Verify {
                session: self.session,
                data: self.data,
                signature: self.signature,
            },
        }
    }

    /// Where the verification stands after a reply. A failure ends it. After the binding the
    /// check is asked for; after the check the verification ends with success.
    pub open spec fn resumed(self, reply: Reply) -> Step<Self, ()> {
        match reply.outcome() {
            Err(e) => Step::Done(Err(e)),
            Ok(()) => match self.phase {
                VerifyPhase::Init => Step::Continue(Verify { phase: VerifyPhase::Check, ..self }),
                VerifyPhase::Check => Step::Done(Ok(())),
            },
        }
    }

}

impl<'a> Operation for Verify<'a> {
    type Output = ();

    open spec fn gateway(&self) -> &Pkcs11 {
        self.client
    }

    open spec fn function(&self) -> Function {
        self.pending().function()
    }

    /// The call to make, or the error of its missing entry.
    fn call(&self) -> (r: Result<Call<'_>, Error>)
        ensures
            r == self.client.dispatched(self.pending()),
    {
        let call = match self.phase {
            VerifyPhase::Init => Call::VerifyInit {
                session: self.session,
                mechanism: self.mechanism,
                key: self.key,
            },
            VerifyPhase::Check => Call::Verify {
                session: self.session,
                data: self.data,
                signature: self.signature,
            },
        };
        self.client.dispatch(call)
    }

    /// Takes the reply to the call and says where the verification stands then.
    fn resume(self, reply: Reply) -> (step: Step<Self, ()>)
        ensures
            step == self.resumed(reply),
    {
        if let Err(e) = reply.result() {
            return Step::Done(Err(e));
        }
        match self.phase {
            VerifyPhase::Init => Step::Continue(Verify { phase: VerifyPhase::Check, ..self }),
            VerifyPhase::Check => Step::Done(Ok(())),
        }
    }
}

impl Pkcs11 {
    /// Signs data in one piece with a key.
    pub fn sign<'a>(
        &'a self,
        session: &Session,
        mechanism: &'a Mechanism,
        key: ObjectHandle,
        data: &'a [u8],
    ) -> (op: Transfer<'a>)
        ensures
            op == (Transfer {
                client: self,
                kind: TransferKind::Sign,
                session: session.handle(),
                mechanism,
                key: key@,
                data,
                phase: TransferPhase::Init,
            }),
    {
        Transfer {
            client: self,
            kind: TransferKind::Sign,
            session: session.handle(),
            mechanism,
            key: key.handle(),
            data,
            phase: TransferPhase::Init,
        }
    }

    /// Verifies a signature over data in one piece with a key.
    pub fn verify<'a>(
        &'a self,
        session: &Session,
        mechanism: &'a Mechanism,
        key: ObjectHandle,
        data: &'a [u8],
        signature: &'a [u8],
    ) -> (op: Verify<'a>)
        ensures
            op == (Verify {
                client: self,
                session: session.handle(),
                mechanism,
                key: key@,
                data,
                signature,
                phase: VerifyPhase::Init,
            }),
    {
        Verify {
            client: self,
            session: session.handle(),
            mechanism,
            key: key.handle(),
            data,
            signature,
            phase: VerifyPhase::Init,
        }
    }
}

} // verus!
