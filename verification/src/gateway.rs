//! The gateway to the module: the entries of its function table, the calls that the library
//! asks for, and what comes back from one.
//!
//! The library makes no call itself. An operation hands out the next call as a value; whoever
//! holds the function table performs it and hands the reply back. Before a call is handed out
//! the gateway looks up its entry in the table, and where the entry is not set there is an
//! error in place of the call.

use crate::types::function::{classify, rv_result, Rv};
use crate::types::locking::RawInitializeArgs;
use crate::types::mechanism::Mechanism;
use crate::types::object::RawAttribute;
use crate::{Error, Pkcs11};
use vstd::prelude::*;

verus! {

/// The entries of the function table that this library calls.
#[derive(Debug, Clone, Copy, PartialEq, Eq, Structural)]
pub enum Function {
    Initialize,
    Finalize,
    GetSlotList,
    OpenSession,
    CloseSession,
    Login,
    Logout,
    CreateObject,
    DestroyObject,
    GetAttributeValue,
    FindObjectsInit,
    FindObjects,
    FindObjectsFinal,
    EncryptInit,
    Encrypt,
    DecryptInit,
    Decrypt,
    SignInit,
    Sign,
    VerifyInit,
    Verify,
    GenerateKey,
    GenerateKeyPair,
    WrapKey,
    UnwrapKey,
    DeriveKey,
}

/// Which entries of the function table are set, each under the name that the table gives it.
#[derive(Debug, Clone, Copy, PartialEq, Eq, Structural)]
pub struct FunctionList {
    pub c_initialize: bool,
    pub c_finalize: bool,
    pub c_get_slot_list: bool,
    pub c_open_session: bool,
    pub c_close_session: bool,
    pub c_login: bool,
    pub c_logout: bool,
    pub c_create_object: bool,
    pub c_destroy_object: bool,
    pub c_get_attribute_value: bool,
    pub c_find_objects_init: bool,
    pub c_find_objects: bool,
    pub c_find_objects_final: bool,
    pub c_encrypt_init: bool,
    pub c_encrypt: bool,
    pub c_decrypt_init: bool,
    pub c_decrypt: bool,
    pub c_sign_init: bool,
    pub c_sign: bool,
    pub c_verify_init: bool,
    pub c_verify: bool,
    pub c_generate_key: bool,
    pub c_generate_key_pair: bool,
    pub c_wrap_key: bool,
    pub c_unwrap_key: bool,
    pub c_derive_key: bool,
}

impl FunctionList {
    /// Whether the entry of a function is set.
    pub open spec fn has(self, function: Function) -> bool {
        match function {
            Function::Initialize => self.c_initialize,
            Function::Finalize => self.c_finalize,
            Function::GetSlotList => self.c_get_slot_list,
            Function::OpenSession => self.c_open_session,
            Function::CloseSession => self.c_close_session,
            Function::Login => self.c_login,
            Function::Logout => self.c_logout,
            Function::CreateObject => self.c_create_object,
            Function::DestroyObject => self.c_destroy_object,
            Function::GetAttributeValue => self.c_get_attribute_value,
            Function::FindObjectsInit => self.c_find_objects_init,
            Function::FindObjects => self.c_find_objects,
            Function::FindObjectsFinal => self.c_find_objects_final,
            Function::EncryptInit => self.c_encrypt_init,
            Function::Encrypt => self.c_encrypt,
            Function::DecryptInit => self.c_decrypt_init,
            Function::Decrypt => self.c_decrypt,
            Function::SignInit => self.c_sign_init,
            Function::Sign => self.c_sign,
            Function::VerifyInit => self.c_verify_init,
            Function::Verify => self.c_verify,
            Function::GenerateKey => self.c_generate_key,
            Function::GenerateKeyPair => self.c_generate_key_pair,
            Function::WrapKey => self.c_wrap_key,
            Function::UnwrapKey => self.c_unwrap_key,
            Function::DeriveKey => self.c_derive_key,
        }
    }

    /// Whether the entry of a function is set.
    pub fn is_set(&self, function: Function) -> (set: bool)
        ensures
            set == self.has(function),
    {
        match function {
            Function::Initialize => self.c_initialize,
            Function::Finalize => self.c_finalize,
            Function::GetSlotList => self.c_get_slot_list,
            Function::OpenSession => self.c_open_session,
            Function::CloseSession => self.c_close_session,
            Function::Login => self.c_login,
            Function::Logout => self.c_logout,
            Function::CreateObject => self.c_create_object,
            Function::DestroyObject => self.c_destroy_object,
            Function::GetAttributeValue => self.c_get_attribute_value,
            Function::FindObjectsInit => self.c_find_objects_init,
            Function::FindObjects => self.c_find_objects,
            Function::FindObjectsFinal => self.c_find_objects_final,
            Function::EncryptInit => self.c_encrypt_init,
            Function::Encrypt => self.c_encrypt,
            Function::DecryptInit => self.c_decrypt_init,
            Function::Decrypt => self.c_decrypt,
            Function::SignInit => self.c_sign_init,
            Function::Sign => self.c_sign,
            Function::VerifyInit => self.c_verify_init,
            Function::Verify => self.c_verify,
            Function::GenerateKey => self.c_generate_key,
            Function::GenerateKeyPair => self.c_generate_key_pair,
            Function::WrapKey => self.c_wrap_key,
            Function::UnwrapKey => self.c_unwrap_key,
            Function::DeriveKey => self.c_derive_key,
        }
    }

    /// The table in which every entry is set, or none.
    pub fn uniform(set: bool) -> (list: FunctionList)
        ensures
            forall|function: Function| list.has(function) == set,
    {
        FunctionList {
            c_initialize: set,
            c_finalize: set,
            c_get_slot_list: set,
            c_open_session: set,
            c_close_session: set,
            c_login: set,
            c_logout: set,
            c_create_object: set,
            c_destroy_object: set,
            c_get_attribute_value: set,
            c_find_objects_init: set,
            c_find_objects: set,
            c_find_objects_final: set,
            c_encrypt_init: set,
            c_encrypt: set,
            c_decrypt_init: set,
            c_decrypt: set,
            c_sign_init: set,
            c_sign: set,
            c_verify_init: set,
            c_verify: set,
            c_generate_key: set,
            c_generate_key_pair: set,
            c_wrap_key: set,
            c_unwrap_key: set,
            c_derive_key: set,
        }
    }
}

/// One call of a function of the module, with its arguments as plain values. A slice stands
/// for a pointer and a count; `capacity` is the size of the buffer that the function is to
/// fill, and `None` there the null pointer with which only the size is asked for. The value
/// borrows what it points at, so none of that can go away before the call was made.
#[derive(Debug, Clone, Copy, PartialEq, Eq)]
pub enum Call<'a> {
    Initialize { args: RawInitializeArgs },
    Finalize,
    GetSlotList { token_present: bool, capacity: Option<usize> },
    OpenSession { slot_id: u64, flags: u64 },
    CloseSession { session: u64 },
    Login { session: u64, user_type: u64, pin: &'a [u8] },
    Logout { session: u64 },
    CreateObject { session: u64, template: &'a [RawAttribute] },
    DestroyObject { session: u64, object: u64 },
    GetAttributeValue { session: u64, object: u64, template: &'a [RawAttribute] },
    FindObjectsInit { session: u64, template: &'a [RawAttribute] },
    FindObjects { session: u64, max_object_count: usize },
    FindObjectsFinal { session: u64 },
    EncryptInit { session: u64, mechanism: &'a Mechanism, key: u64 },
    Encrypt { session: u64, data: &'a [u8], capacity: Option<usize> },
    DecryptInit { session: u64, mechanism: &'a Mechanism, key: u64 },
    Decrypt { session: u64, data: &'a [u8], capacity: Option<usize> },
    SignInit { session: u64, mechanism: &'a Mechanism, key: u64 },
    Sign { session: u64, data: &'a [u8], capacity: Option<usize> },
    VerifyInit { session: u64, mechanism: &'a Mechanism, key: u64 },
    Verify { session: u64, data: &'a [u8], signature: &'a [u8] },
    GenerateKey { session: u64, mechanism: &'a Mechanism, template: &'a [RawAttribute] },
    GenerateKeyPair {
        session: u64,
        mechanism: &'a Mechanism,
        public_template: &'a [RawAttribute],
        private_template: &'a [RawAttribute],
    },
    WrapKey {
        session: u64,
        mechanism: &'a Mechanism,
        wrapping_key: u64,
        key: u64,
        capacity: Option<usize>,
    },
    UnwrapKey {
        session: u64,
        mechanism: &'a Mechanism,
        unwrapping_key: u64,
        wrapped_key: &'a [u8],
        template: &'a [RawAttribute],
    },
    DeriveKey {
        session: u64,
        mechanism: &'a Mechanism,
        base_key: u64,
        template: &'a [RawAttribute],
    },
}

impl<'a> Call<'a> {
    /// The entry of the function table that this call goes through.
    pub open spec fn spec_function(&self) -> Function {
        match self {
            Call::Initialize { .. } => Function::Initialize,
            Call::Finalize => Function::Finalize,
            Call::GetSlotList { .. } => Function::GetSlotList,
            Call::OpenSession { .. } => Function::OpenSession,
            Call::CloseSession { .. } => Function::CloseSession,
            Call::Login { .. } => Function::Login,
            Call::Logout { .. } => Function::Logout,
            Call::CreateObject { .. } => Function::CreateObject,
            Call::DestroyObject { .. } => Function::DestroyObject,
            Call::GetAttributeValue { .. } => Function::GetAttributeValue,
            Call::FindObjectsInit { .. } => Function::FindObjectsInit,
            Call::FindObjects { .. } => Function::FindObjects,
            Call::FindObjectsFinal { .. } => Function::FindObjectsFinal,
            Call::EncryptInit { .. } => Function::EncryptInit,
            Call::Encrypt { .. } => Function::Encrypt,
            Call::DecryptInit { .. } => Function::DecryptInit,
            Call::Decrypt { .. } => Function::Decrypt,
            Call::SignInit { .. } => Function::SignInit,
            Call::Sign { .. } => Function::Sign,
            Call::VerifyInit { .. } => Function::VerifyInit,
            Call::Verify { .. } => Function::Verify,
            Call::GenerateKey { .. } => Function::GenerateKey,
            Call::GenerateKeyPair { .. } => Function::GenerateKeyPair,
            Call::WrapKey { .. } => Function::WrapKey,
            Call::UnwrapKey { .. } => Function::UnwrapKey,
            Call::DeriveKey { .. } => Function::DeriveKey,
        }
    }

    /// The entry of the function table that this call goes through.
    #[verifier::when_used_as_spec(spec_function)]
    pub fn function(&self) -> (function: Function)
        ensures
            function == self.spec_function(),
    {
        match self {
            Call::Initialize { .. } => Function::Initialize,
            Call::Finalize => Function::Finalize,
            Call::GetSlotList { .. } => Function::GetSlotList,
            Call::OpenSession { .. } => Function::OpenSession,
            Call::CloseSession { .. } => Function::CloseSession,
            Call::Login { .. } => Function::Login,
            Call::Logout { .. } => Function::Logout,
            Call::CreateObject { .. } => Function::CreateObject,
            Call::DestroyObject { .. } => Function::DestroyObject,
            Call::GetAttributeValue { .. } => Function::GetAttributeValue,
            Call::FindObjectsInit { .. } => Function::FindObjectsInit,
            Call::FindObjects { .. } => Function::FindObjects,
            Call::FindObjectsFinal { .. } => Function::FindObjectsFinal,
            Call::EncryptInit { .. } => Function::EncryptInit,
            Call::Encrypt { .. } => Function::Encrypt,
            Call::DecryptInit { .. } => Function::DecryptInit,
            Call::Decrypt { .. } => Function::Decrypt,
            Call::SignInit { .. } => Function::SignInit,
            Call::Sign { .. } => Function::Sign,
            Call::VerifyInit { .. } => Function::VerifyInit,
            Call::Verify { .. } => Function::Verify,
            Call::GenerateKey { .. } => Function::GenerateKey,
            Call::GenerateKeyPair { .. } => Function::GenerateKeyPair,
            Call::WrapKey { .. } => Function::WrapKey,
            Call::UnwrapKey { .. } => Function::UnwrapKey,
            Call::DeriveKey { .. } => Function::DeriveKey,
        }
    }
}

/// What one call left behind: the value that the function returned, and what it wrote through
/// the pointers that it was given. A call fills only some of these; the others are zero or
/// empty.
#[derive(Debug, Clone, PartialEq, Eq)]
pub struct Reply {
    /// The value that the function returned.
    pub rv: u64,
    /// The word written through the one pointer to a count, a length or a handle.
    pub value: u64,
    /// The word written through the second pointer to a handle, where the function has two.
    pub second: u64,
    /// The buffer of bytes that the function was to fill, as it left it.
    pub bytes: Vec<u8>,
    /// The buffer of handles or slot identifiers that the function was to fill, as it left it.
    pub handles: Vec<u64>,
    /// The template that the function was given, as it left it.
    pub template: Vec<RawAttribute>,
}

impl Reply {
    /// The reply of a function that wrote nothing.
    pub fn status(rv: u64) -> (reply: Reply)
        ensures
            reply.rv == rv,
            reply.value == 0,
            reply.second == 0,
            reply.bytes@ == Seq::<u8>::empty(),
            reply.handles@ == Seq::<u64>::empty(),
            reply.template@ == Seq::<RawAttribute>::empty(),
    {
        Reply {
            rv,
            value: 0,
            second: 0,
            bytes: Vec::new(),
            handles: Vec::new(),
            template: Vec::new(),
        }
    }

    /// The result that the returned value stands for.
    pub open spec fn outcome(&self) -> Result<(), Error> {
        rv_result(classify(self.rv))
    }

    /// The result that the returned value stands for: success, or the member of the taxonomy
    /// that it belongs to.
    pub fn result(&self) -> (r: Result<(), Error>)
        ensures
            r == self.outcome(),
    {
        Rv::from(self.rv).to_result()
    }
}

/// Where an operation stands after a reply.
#[derive(Debug)]
pub enum Step<M, T> {
    /// It goes on: there is a next call to make.
    Continue(M),
    /// It has ended, with this result.
    Done(Result<T, Error>),
}

/// A count or length that the module wrote, as a number that can index a buffer here.
pub open spec fn usize_of(value: u64) -> Result<usize, Error> {
    if value > usize::MAX {
        Err(Error::TryFromInt)
    } else {
        Ok(value as usize)
    }
}

/// A count or length that the module wrote, as a number that can index a buffer here: an
/// error where it is too large for that.
pub fn to_usize(value: u64) -> (r: Result<usize, Error>)
    ensures
        r == usize_of(value),
{
    if value > usize::MAX as u64 {
        Err(Error::TryFromInt)
    } else {
        Ok(value as usize)
    }
}

/// The first `len` items of a buffer; where the buffer has fewer, it is filled up with
/// `fill`.
pub open spec fn resized<T>(buffer: Seq<T>, len: nat, fill: T) -> Seq<T> {
    Seq::new(
        len,
        |i: int|
            if i < buffer.len() {
                buffer[i]
            } else {
                fill
            },
    )
}

/// What an output buffer holds once the module has said how much of it counts: the buffer cut
/// or filled up with zeros to that length. The length of the second call decides, not the one
/// that the buffer was made for.
pub open spec fn sized_output(buffer: Seq<u8>, len: u64) -> Result<Seq<u8>, Error> {
    match usize_of(len) {
        Err(e) => Err(e),
        Ok(n) => Ok(resized(buffer, n as nat, 0u8)),
    }
}

/// Cuts or fills up an output buffer to the length that the module reported.
pub fn size_output(buffer: Vec<u8>, len: u64) -> (r: Result<Vec<u8>, Error>)
    ensures
        match r {
            Ok(bytes) => sized_output(buffer@, len) == Ok::<Seq<u8>, Error>(bytes@),
            Err(e) => sized_output(buffer@, len) == Err::<Seq<u8>, Error>(e),
        },
{
    let n = to_usize(len)?;
    let mut bytes = buffer;
    bytes.truncate(n);
    while bytes.len() < n
        invariant
            bytes@.len() <= n,
            bytes@.len() < n ==> bytes@.len() >= buffer@.len(),
            bytes@ =~= resized(buffer@, bytes@.len(), 0u8),
        decreases n - bytes@.len(),
    {
        bytes.push(0);
    }
    assert(bytes@ =~= resized(buffer@, n as nat, 0u8));
    Ok(bytes)
}

/// What a buffer of handles holds once the module has said how many of them count: an error
/// where that is more than the buffer has.
pub open spec fn batch_of(buffer: Seq<u64>, count: u64) -> Result<Seq<u64>, Error> {
    match usize_of(count) {
        Err(e) => Err(e),
        Ok(n) => if n > buffer.len() {
            Err(Error::TryFromSlice)
        } else {
            Ok(buffer.subrange(0, n as int))
        },
    }
}

/// Cuts a buffer of handles to the count that the module reported.
pub fn take_batch(buffer: Vec<u64>, count: u64) -> (r: Result<Vec<u64>, Error>)
    ensures
        match r {
            Ok(batch) => batch_of(buffer@, count) == Ok::<Seq<u64>, Error>(batch@),
            Err(e) => batch_of(buffer@, count) == Err::<Seq<u64>, Error>(e),
        },
{
    let n = to_usize(count)?;
    if n > buffer.len() {
        return Err(Error::TryFromSlice);
    }
    let mut batch = buffer;
    batch.truncate(n);
    Ok(batch)
}

impl Pkcs11 {
    /// What the gateway makes of a call: the call itself where the function table has its
    /// entry, the error of the missing entry where it has not.
    pub open spec fn dispatched<'c>(&self, call: Call<'c>) -> Result<Call<'c>, Error> {
        if self.functions().has(call.function()) {
            Ok(call)
        } else {
            Err(Error::NullFunctionPointer)
        }
    }

    /// Looks up the entry of a call in the function table. Every call that an operation hands
    /// out has passed here, so none is handed out for an entry that is not set.
    pub fn dispatch<'c>(&self, call: Call<'c>) -> (r: Result<Call<'c>, Error>)
        ensures
            r == self.dispatched(call),
    {
        if self.function_list.is_set(call.function()) {
            Ok(call)
        } else {
            Err(Error::NullFunctionPointer)
        }
    }
}

/// An operation of the client: it hands out one call after the other and takes the reply to
/// each, until it ends with its result.
///
/// Whoever drives an operation asks it for the call, performs the call on the module, and
/// resumes the operation with the reply; where that gives another state of the operation, the
/// same follows for it. When the function table has no entry for the function that comes
/// next, there is no call to perform: the operation fails there, and nothing reaches the
/// module.
pub trait Operation: Sized {
    /// What the operation gives when it ends well.
    type Output;

    /// The client through which the operation reaches the function table.
    spec fn gateway(&self) -> &Pkcs11;

    /// The function that the operation calls next.
    spec fn function(&self) -> Function;

    /// The call to make next: a call of the function that comes next, where the function
    /// table has its entry; the error of a missing entry where it has not.
    fn call(&self) -> (r: Result<Call<'_>, Error>)
        ensures
            match r {
                Ok(call) => self.gateway().functions().has(self.function()) && call.function()
                    == self.function(),
                Err(e) => e == Error::NullFunctionPointer && !self.gateway().functions().has(
                    self.function(),
                ),
            },
    ;

    /// Takes the reply to the call and says where the operation stands then.
    fn resume(self, reply: Reply) -> (step: Step<Self, Self::Output>);
}

/// An operation of one call that gives nothing back but success or failure.
#[derive(Debug)]
pub struct Plain<'a> {
    pub client: &'a Pkcs11,
    pub request: Call<'a>,
}

impl<'a> Operation for Plain<'a> {
    type Output = ();

    open spec fn gateway(&self) -> &Pkcs11 {
        self.client
    }

    open spec fn function(&self) -> Function {
        self.request.function()
    }

    /// The call to make, or the error of its missing entry.
    fn call(&self) -> (r: Result<Call<'_>, Error>)
        ensures
            r == self.client.dispatched(self.request),
    {
        self.client.dispatch(self.request)
    }

    /// The operation ends with what the returned value stands for.
    fn resume(self, reply: Reply) -> (step: Step<Self, ()>)
        ensures
            step == Step::<Self, ()>::Done(reply.outcome()),
    {
        Step::Done(reply.result())
    }
}

} // verus!
