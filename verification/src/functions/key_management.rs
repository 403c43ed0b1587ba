//! Keys: generating, wrapping, unwrapping and deriving them.

use crate::functions::object_management::{NewObject, ObjectRequest};
use crate::functions::variable_output::Wrap;
use crate::gateway::{Call, Function, Operation, Reply, Step};
use crate::types::mechanism::Mechanism;
use crate::types::object::{
    encode_template, encode_template_spec, template_fits, Attribute, ObjectHandle, RawAttribute,
};
use crate::types::session::Session;
use crate::{Error, Pkcs11};
use vstd::prelude::*;

verus! {

/// The generation of a pair of keys: one call, which gives the handles of the public and of
/// the private key.
#[derive(Debug)]
pub struct NewKeyPair<'a> {
    pub client: &'a Pkcs11,
    pub session: u64,
    pub mechanism: &'a Mechanism,
    pub public_template: Vec<RawAttribute>,
    pub private_template: Vec<RawAttribute>,
}

impl<'a> Operation for NewKeyPair<'a> {
    type Output = (ObjectHandle, ObjectHandle);

    open spec fn gateway(&self) -> &Pkcs11 {
        self.client
    }

    open spec fn function(&self) -> Function {
        Function::GenerateKeyPair
    }

    /// The call to make, or the error of its missing entry.
    fn call(&self) -> (r: Result<Call<'_>, Error>)
        ensures
            match r {
                Ok(call) => {
                    &&& self.client.functions().has(Function::GenerateKeyPair)
                    &&& call matches Call::GenerateKeyPair {
                        session,
                        mechanism,
                        public_template,
                        private_template,
                    }
                    &&& session == self.session
                    &&& mechanism == self.mechanism
                    &&& public_template@ == self.public_template@
                    &&& private_template@ == self.private_template@
                },
                Err(e) => e == Error::NullFunctionPointer && !self.client.functions().has(
                    Function::GenerateKeyPair,
                ),
            },
    {
        self.client.dispatch(
            Call::GenerateKeyPair {
                session: self.session,
                mechanism: self.mechanism,
                public_template: self.public_template.as_slice(),
                private_template: self.private_template.as_slice(),
            },
        )
    }

    /// The operation ends: with the error that the returned value stands for, or with the
    /// two handles that the module wrote, the public key first.
    fn resume(self, reply: Reply) -> (step: Step<Self, (ObjectHandle, ObjectHandle)>)
        ensures
            match reply.outcome() {
                Err(e) => step == Step::<Self, (ObjectHandle, ObjectHandle)>::Done(Err(e)),
                Ok(()) => step matches Step::Done(Ok(pair)) && pair.0@ == reply.value && pair.1@
                    == reply.second,
            },
    {
        match reply.result() {
            Err(e) => Step::Done(Err(e)),
            Ok(()) => Step::Done(
                Ok((ObjectHandle::new(reply.value), ObjectHandle::new(reply.second))),
            ),
        }
    }
}

impl Pkcs11 {
    /// Generates a pair of keys, each from its template.
    pub fn generate_key_pair<'a>(
        &'a self,
        session: &Session,
        mechanism: &'a Mechanism,
        pub_key_template: &[Attribute],
        priv_key_template: &[Attribute],
    ) -> (r: Result<NewKeyPair<'a>, Error>)
        ensures
            match r {
                Ok(op) => {
                    &&& template_fits(pub_key_template.deep_view())
                    &&& template_fits(priv_key_template.deep_view())
                    &&& op.client == self
                    &&& op.session == session.handle()
                    &&& op.mechanism == mechanism
                    &&& op.public_template.deep_view() == encode_template_spec(
                        pub_key_template.deep_view(),
                        self.order(),
                    )
                    &&& op.private_template.deep_view() == encode_template_spec(
                        priv_key_template.deep_view(),
                        self.order(),
                    )
                },
                Err(e) => e == Error::TryFromInt && !(template_fits(pub_key_template.deep_view())
                    && template_fits(priv_key_template.deep_view())),
            },
    {
        let public_template = encode_template(pub_key_template, self.byte_order())?;
        let private_template = encode_template(priv_key_template, self.byte_order())?;
        Ok(
            NewKeyPair {
                client: self,
                session: session.handle(),
                mechanism,
                public_template,
                private_template,
            },
        )
    }

    /// Generates a key from a template.
    pub fn generate_key<'a>(
        &'a self,
        session: &Session,
        mechanism: &'a Mechanism,
        key_template: &[Attribute],
    ) -> (r: Result<NewObject<'a>, Error>)
        ensures
            match r {
                Ok(op) => {
                    &&& template_fits(key_template.deep_view())
                    &&& op.client == self
                    &&& op.request == (ObjectRequest::Generate {
                        session: session.handle(),
                        mechanism,
                    })
                    &&& op.template.deep_view() == encode_template_spec(
                        key_template.deep_view(),
                        self.order(),
                    )
                },
                Err(e) => e == Error::TryFromInt && !template_fits(key_template.deep_view()),
            },
    {
        let template = encode_template(key_template, self.byte_order())?;
        Ok(
            NewObject {
                client: self,
                request: ObjectRequest::Generate { session: session.handle(), mechanism },
                template,
            },
        )
    }

    /// Wraps a key with another.
    pub fn wrap_key<'a>(
        &'a self,
        session: &Session,
        mechanism: &'a Mechanism,
        wrapping_key: ObjectHandle,
        key: ObjectHandle,
    ) -> (op: Wrap<'a>)
        ensures
            op == (Wrap {
                client: self,
                session: session.handle(),
                mechanism,
                wrapping_key: wrapping_key@,
                key: key@,
                capacity: None,
            }),
    {
        Wrap {
            client: self,
            session: session.handle(),
            mechanism,
            wrapping_key: wrapping_key.handle(),
            key: key.handle(),
            capacity: None,
        }
    }

    /// Unwraps a key from bytes, with a template for the new key.
    pub fn unwrap_key<'a>(
        &'a self,
        session: &Session,
        mechanism: &'a Mechanism,
        unwrapping_key: ObjectHandle,
        wrapped_key: &'a [u8],
        wrapped_key_template: &[Attribute],
    ) -> (r: Result<NewObject<'a>, Error>)
        ensures
            match r {
                Ok(op) => {
                    &&& template_fits(wrapped_key_template.deep_view())
                    &&& op.client == self
                    &&& op.request == (ObjectRequest::Unwrap {
                        session: session.handle(),
                        mechanism,
                        unwrapping_key: unwrapping_key@,
                        wrapped_key,
                    })
                    &&& op.template.deep_view() == encode_template_spec(
                        wrapped_key_template.deep_view(),
                        self.order(),
                    )
                },
                Err(e) => e == Error::TryFromInt && !template_fits(
                    wrapped_key_template.deep_view(),
                ),
            },
    {
        let template = encode_template(wrapped_key_template, self.byte_order())?;
        Ok(
            NewObject {
                client: self,
                request: ObjectRequest::Unwrap {
                    session: session.handle(),
                    mechanism,
                    unwrapping_key: unwrapping_key.handle(),
                    wrapped_key,
                },
                template,
            },
        )
    }

    /// Derives a key from another, with a template for the new key.
    pub fn derive_key<'a>(
        &'a self,
        session: &Session,
        mechanism: &'a Mechanism,
        base_key: ObjectHandle,
        derived_key_template: &[Attribute],
    ) -> (r: Result<NewObject<'a>, Error>)
        ensures
            match r {
                Ok(op) => {
                    &&& template_fits(derived_key_template.deep_view())
                    &&& op.client == self
                    &&& op.request == (ObjectRequest::Derive {
                        session: session.handle(),
                        mechanism,
                        base_key: base_key@,
                    })
                    &&& op.template.deep_view() == encode_template_spec(
                        derived_key_template.deep_view(),
                        self.order(),
                    )
                },
                Err(e) => e == Error::TryFromInt && !template_fits(
                    derived_key_template.deep_view(),
                ),
            },
    {
        let template = encode_template(derived_key_template, self.byte_order())?;
        Ok(
            NewObject {
                client: self,
                request: ObjectRequest::Derive {
                    session: session.handle(),
                    mechanism,
                    base_key: base_key.handle(),
                },
                template,
            },
        )
    }
}

} // verus!
