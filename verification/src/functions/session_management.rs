//! Opening and closing sessions, logging in and out.

use crate::gateway::{Call, Function, Operation, Plain, Reply, Step};
use crate::types::session::{user_type_tag, Session, UserType};
use crate::types::slot_token::Slot;
use crate::types::Flags;
use crate::{Error, Pkcs11};
use vstd::prelude::*;
use vstd::string::StringSliceAdditionalSpecFns;

verus! {

/// The opening of a session: one call, which gives the handle of the session.
#[derive(Debug)]
pub struct OpenSession<'a> {
    pub client: &'a Pkcs11,
    pub slot_id: u64,
    pub flags: u64,
}

impl<'a> Operation for OpenSession<'a> {
    type Output = Session<'a>;

    open spec fn gateway(&self) -> &Pkcs11 {
        self.client
    }

    open spec fn function(&self) -> Function {
        Function::OpenSession
    }

    /// The call to make, or the error of its missing entry. No callback is registered for the
    /// session.
    fn call(&self) -> (r: Result<Call<'_>, Error>)
        ensures
            r == self.client.dispatched(
                Call::OpenSession { slot_id: self.slot_id, flags: self.flags },
            ),
    {
        self.client.dispatch(Call::OpenSession { slot_id: self.slot_id, flags: self.flags })
    }

    /// The operation ends: with the error that the returned value stands for, or with the
    /// session of the handle that the module wrote.
    fn resume(self, reply: Reply) -> (step: Step<Self, Session<'a>>)
        ensures
            match reply.outcome() {
                Err(e) => step == Step::<Self, Session<'a>>::Done(Err(e)),
                Ok(()) => step matches Step::Done(Ok(session)) && session.handle() == reply.value
                    && session.client() == self.client,
            },
    {
        match reply.result() {
            Err(e) => Step::Done(Err(e)),
            Ok(()) => Step::Done(Ok(Session::new(reply.value, self.client))),
        }
    }
}

/// Whether a zero byte lies among the given bytes.
pub open spec fn has_nul(bytes: Seq<u8>) -> bool {
    exists|i: int| 0 <= i < bytes.len() && bytes[i] == 0
}

/// Whether a zero byte lies among the given bytes.
pub fn contains_nul(bytes: &[u8]) -> (found: bool)
    ensures
        found == has_nul(bytes@),
{
    let mut i: usize = 0;
    while i < bytes.len()
        invariant
            i <= bytes@.len(),
            forall|j: int| 0 <= j < i ==> bytes@[j] != 0,
        decreases bytes@.len() - i,
    {
        if bytes[i] == 0 {
            return true;
        }
        i = i + 1;
    }
    false
}

impl Pkcs11 {
    /// Opens a session on a slot, with the given flags and without a callback.
    pub fn open_session_no_callback(&self, slot_id: &Slot, flags: Flags) -> (op: OpenSession<'_>)
        ensures
            op.client == self,
            op.slot_id == slot_id@,
            op.flags == flags@,
    {
        OpenSession { client: self, slot_id: slot_id.id(), flags: flags.into() }
    }
}

impl<'a> Session<'a> {
    /// Closes the session. This is what the end of a session's life asks of the module; a
    /// failure of it is to be reported, and is no reason to stop what goes on around it.
    pub fn close(&self) -> (op: Plain<'a>)
        ensures
            op.client == self.client(),
            op.request == (Call::CloseSession { session: self.handle() }),
    {
        Plain { client: self.client(), request: Call::CloseSession { session: self.handle() } }
    }

    /// Logs a role in to the session with its PIN. A PIN that holds a zero byte is refused
    /// before anything is asked of the module.
    pub fn login<'b>(&self, user_type: UserType, pin: &'b str) -> (r: Result<
        Plain<'b>,
        Error,
    >) where
        'a: 'b,

        ensures
            match r {
                Err(e) => e == Error::NulError && has_nul(pin.spec_bytes()),
                Ok(op) => {
                    &&& !has_nul(pin.spec_bytes())
                    &&& op.client == self.client()
                    &&& op.request matches Call::Login { session, user_type: role, pin: secret }
                    &&& session == self.handle()
                    &&& role == user_type_tag(user_type)
                    &&& secret@ == pin.spec_bytes()
                },
            },
    {
        let secret = pin.as_bytes();
        if contains_nul(secret) {
            return Err(Error::NulError);
        }
        Ok(
            Plain {
                client: self.client(),
                request: Call::Login {
                    session: self.handle(),
                    user_type: user_type.into(),
                    pin: secret,
                },
            },
        )
    }

    /// Logs out of the session.
    pub fn logout(&self) -> (op: Plain<'a>)
        ensures
            op.client == self.client(),
            op.request == (Call::Logout { session: self.handle() }),
    {
        Plain { client: self.client(), request: Call::Logout { session: self.handle() } }
    }
}

} // verus!
