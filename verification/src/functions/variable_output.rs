//! The operations whose output has a length that only the module knows: the output is asked
//! for twice, first without a buffer to learn the length, then with a buffer of that length.

use crate::gateway::{
    size_output, sized_output, to_usize, usize_of, Call, Function, Operation, Reply, Step,
};
use crate::types::mechanism::Mechanism;
use crate::{Error, Pkcs11};
use vstd::prelude::*;

verus! {

/// What is done to the data.
#[derive(Debug, Clone, Copy, PartialEq, Eq, Structural)]
pub enum TransferKind {
    Sign,
    Encrypt,
    Decrypt,
}

/// Where a transfer stands.
#[derive(Debug, Clone, Copy, PartialEq, Eq, Structural)]
pub enum TransferPhase {
    /// The mechanism and the key are to be bound to the session.
    Init,
    /// The length of the output is asked for.
    Length,
    /// The output is asked for, into a buffer of the given size.
    Fill { capacity: usize },
}

/// Signing, encrypting or decrypting data in one piece: the mechanism and the key are bound
/// to the session, the length of the output is asked for, and the output is fetched.
#[derive(Debug, Clone, Copy)]
pub struct Transfer<'a> {
    pub client: &'a Pkcs11,
    pub kind: TransferKind,
    pub session: u64,
    pub mechanism: &'a Mechanism,
    pub key: u64,
    pub data: &'a [u8],
    pub phase: TransferPhase,
}

impl<'a> Transfer<'a> {
    /// The call that the transfer asks for next.
    pub open spec fn pending(&self) -> Call<'a> {
        let capacity = match self.phase {
            TransferPhase::Fill { capacity } => Some(capacity),
            _ => None,
        };
        match (self.kind, self.phase) {
            (TransferKind::Sign, TransferPhase::Init) => Call::SignInit {
                session: self.session,
                mechanism: self.mechanism,
                key: self.key,
            },
            (TransferKind::Encrypt, TransferPhase::Init) => Call::EncryptInit {
                session: self.session,
                mechanism: self.mechanism,
                key: self.key,
            },
            (TransferKind::Decrypt, TransferPhase::Init) => Call::DecryptInit {
                session: self.session,
                mechanism: self.mechanism,
                key: self.key,
            },
            (TransferKind::Sign, _) => Call::Sign {
                session: self.session,
                data: self.data,
                capacity,
            },
            (TransferKind::Encrypt, _) => Call::Encrypt {
                session: self.session,
                data: self.data,
                capacity,
            },
            (TransferKind::Decrypt, _) => Call::Decrypt {
                session: self.session,
                data: self.data,
                capacity,
            },
        }
    }

    /// Where the transfer stands after a reply. A failure ends it. After the binding the
    /// length is asked for; the length becomes the size of the buffer; after the buffer was
    /// filled the transfer ends with the bytes of the buffer, as many as the last call
    /// counted.
    pub open spec fn resumed(self, reply: Reply, step: Step<Self, Vec<u8>>) -> bool {
        match reply.outcome() {
            Err(e) => step == Step::<Self, Vec<u8>>::Done(Err(e)),
            Ok(()) => match self.phase {
                TransferPhase::Init => step == Step::<Self, Vec<u8>>::Continue(
                    Transfer { phase: TransferPhase::Length, ..self },
                ),
                TransferPhase::Length => match usize_of(reply.value) {
                    Err(e) => step == Step::<Self, Vec<u8>>::Done(Err(e)),
                    Ok(capacity) => step == Step::<Self, Vec<u8>>::Continue(
                        Transfer { phase: TransferPhase::Fill { capacity }, ..self },
                    ),
                },
                TransferPhase::Fill { .. } => match sized_output(reply.bytes@, reply.value) {
                    Err(e) => step == Step::<Self, Vec<u8>>::Done(Err(e)),
                    Ok(bytes) => step matches Step::Done(Ok(output)) && output@ == bytes,
                },
            },
        }
    }

}

impl<'a> Operation for Transfer<'a> {
    type Output = Vec<u8>;

    open spec fn gateway(&self) -> &Pkcs11 {
        self.client
    }

    open spec fn function(&self) -> Function {
        self.pending().function()
    }

    /// The call to make, or the error of its missing entry.
    fn call(&self) -> (r: Result<Call<'_>, Error>)
        ensures
            r == self.client.dispatched(self.pending()),
    {
        let capacity = match self.phase {
            TransferPhase::Fill { capacity } => Some(capacity),
            _ => None,
        };
        let call = match self.phase {
            TransferPhase::Init => match self.kind {
                TransferKind::Sign => Call::SignInit {
                    session: self.session,
                    mechanism: self.mechanism,
                    key: self.key,
                },
                TransferKind::Encrypt => Call::EncryptInit {
                    session: self.session,
                    mechanism: self.mechanism,
                    key: self.key,
                },
                TransferKind::Decrypt => Call::DecryptInit {
                    session: self.session,
                    mechanism: self.mechanism,
                    key: self.key,
                },
            },
            _ => match self.kind {
                TransferKind::Sign => Call::Sign {
                    session: self.session,
                    data: self.data,
                    capacity,
                },
                TransferKind::Encrypt => Call::Encrypt {
                    session: self.session,
                    data: self.data,
                    capacity,
                },
                TransferKind::Decrypt => Call::Decrypt {
                    session: self.session,
                    data: self.data,
                    capacity,
                },
            },
        };
        self.client.dispatch(call)
    }

    /// Takes the reply to the call and says where the transfer stands then.
    fn resume(self, reply: Reply) -> (step: Step<Self, Vec<u8>>)
        ensures
            self.resumed(reply, step),
    {
        if let Err(e) = reply.result() {
            return Step::Done(Err(e));
        }
        match self.phase {
            TransferPhase::Init => Step::Continue(
                Transfer { phase: TransferPhase::Length, ..self },
            ),
            TransferPhase::Length => match to_usize(reply.value) {
                Err(e) => Step::Done(Err(e)),
                Ok(capacity) => Step::Continue(
                    Transfer { phase: TransferPhase::Fill { capacity }, ..self },
                ),
            },
            TransferPhase::Fill { .. } => {
                let len = reply.value;
                Step::Done(size_output(reply.bytes, len))
            },
        }
    }
}

/// The wrapping of a key: the length of the wrapped key is asked for, and the wrapped key is
/// fetched. Nothing is bound to the session beforehand.
#[derive(Debug, Clone, Copy)]
pub struct Wrap<'a> {
    pub client: &'a Pkcs11,
    pub session: u64,
    pub mechanism: &'a Mechanism,
    pub wrapping_key: u64,
    pub key: u64,
    /// The size of the buffer of the second call; `None` before the first.
    pub capacity: Option<usize>,
}

impl<'a> Wrap<'a> {
    /// The call that the wrapping asks for next.
    pub open spec fn pending(&self) -> Call<'a> {
        Call::WrapKey {
            session: self.session,
            mechanism: self.mechanism,
            wrapping_key: self.wrapping_key,
            key: self.key,
            capacity: self.capacity,
        }
    }

    /// Where the wrapping stands after a reply. A failure ends it. The length of the first
    /// call becomes the size of the buffer of the second; after the second the wrapping ends
    /// with the bytes of the buffer, as many as the second call counted.
    pub open spec fn resumed(self, reply: Reply, step: Step<Self, Vec<u8>>) -> bool {
        match reply.outcome() {
            Err(e) => step == Step::<Self, Vec<u8>>::Done(Err(e)),
            Ok(()) => match self.capacity {
                None => match usize_of(reply.value) {
                    Err(e) => step == Step::<Self, Vec<u8>>::Done(Err(e)),
                    Ok(capacity) => step == Step::<Self, Vec<u8>>::Continue(
                        Wrap { capacity: Some(capacity), ..self },
                    ),
                },
                Some(_) => match sized_output(reply.bytes@, reply.value) {
                    Err(e) => step == Step::<Self, Vec<u8>>::Done(Err(e)),
                    Ok(bytes) => step matches Step::Done(Ok(output)) && output@ == bytes,
                },
            },
        }
    }

}

impl<'a> Operation for Wrap<'a> {
    type Output = Vec<u8>;

    open spec fn gateway(&self) -> &Pkcs11 {
        self.client
    }

    open spec fn function(&self) -> Function {
        Function::WrapKey
    }

    /// The call to make, or the error of its missing entry.
    fn call(&self) -> (r: Result<Call<'_>, Error>)
        ensures
            r == self.client.dispatched(self.pending()),
    {
        self.client.dispatch(
            Call::WrapKey {
                session: self.session,
                mechanism: self.mechanism,
                wrapping_key: self.wrapping_key,
                key: self.key,
                capacity: self.capacity,
            },
        )
    }

    /// Takes the reply to the call and says where the wrapping stands then.
    fn resume(self, reply: Reply) -> (step: Step<Self, Vec<u8>>)
        ensures
            self.resumed(reply, step),
    {
        if let Err(e) = reply.result() {
            return Step::Done(Err(e));
        }
        match self.capacity {
            None => match to_usize(reply.value) {
                Err(e) => Step::Done(Err(e)),
                Ok(capacity) => Step::Continue(Wrap { capacity: Some(capacity), ..self }),
            },
            Some(_) => {
                let len = reply.value;
                Step::Done(size_output(reply.bytes, len))
            },
        }
    }
}

} // verus!
