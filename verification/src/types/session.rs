//! Sessions with a token, and the roles that log in to one.

use crate::constants::{CKU_CONTEXT_SPECIFIC, CKU_SO, CKU_USER};
use crate::Pkcs11;
use vstd::prelude::*;

verus! {

/// `core::cell::Cell`, of which this library uses nothing but the name: a type that holds one
/// makes no promise that it can be shared between threads.
#[verifier::external_type_specification]
#[verifier::external_body]
#[verifier::reject_recursive_types(T)]
pub struct ExCell<T: ?Sized>(core::cell::Cell<T>);

/// An open session: the handle that the module gave it, and the client that it was opened
/// through, so that operations on the session need no other way to the function table.
#[derive(Debug)]
pub struct Session<'a> {
    handle: u64,
    client: &'a Pkcs11,
    /// Keeps a session from being shared between threads: the state that the module holds
    /// for a session is for one caller at a time.
    guard: core::marker::PhantomData<core::cell::Cell<u8>>,
}

impl<'a> Session<'a> {
    /// The handle of the session.
    pub closed spec fn spec_handle(&self) -> u64 {
        self.handle
    }

    /// The client that the session was opened through.
    pub closed spec fn spec_client(&self) -> &'a Pkcs11 {
        self.client
    }

    pub(crate) fn new(handle: u64, client: &'a Pkcs11) -> (session: Self)
        ensures
            session.spec_handle() == handle,
            session.spec_client() == client,
    {
        Session { handle, client, guard: core::marker::PhantomData }
    }

    #[verifier::when_used_as_spec(spec_handle)]
    pub fn handle(&self) -> (handle: u64)
        ensures
            handle == self.spec_handle(),
    {
        self.handle
    }

    #[verifier::when_used_as_spec(spec_client)]
    pub fn client(&self) -> (client: &'a Pkcs11)
        ensures
            client == self.spec_client(),
    {
        self.client
    }
}

/// The role that logs in.
#[derive(Debug, Clone, Copy, PartialEq, Eq, Structural)]
pub enum UserType {
    /// The security officer.
    So,
    /// The normal user.
    User,
    /// The user of one operation that asks for a login of its own.
    ContextSpecific,
}

/// The number of a role.
pub open spec fn user_type_tag(user_type: UserType) -> u64 {
    match user_type {
        UserType::So => CKU_SO,
        UserType::User => CKU_USER,
        UserType::ContextSpecific => CKU_CONTEXT_SPECIFIC,
    }
}

impl From<UserType> for u64 {
    fn from(user_type: UserType) -> (tag: u64)
        ensures
            tag == user_type_tag(user_type),
    {
        match user_type {
            UserType::So => CKU_SO,
            UserType::User => CKU_USER,
            UserType::ContextSpecific => CKU_CONTEXT_SPECIFIC,
        }
    }
}

impl vstd::std_specs::convert::FromSpecImpl<UserType> for u64 {
    open spec fn obeys_from_spec() -> bool {
        true
    }

    open spec fn from_spec(user_type: UserType) -> Self {
        user_type_tag(user_type)
    }
}

} // verus!
