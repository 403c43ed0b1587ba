//! Objects: creating, destroying and finding them, and reading their attributes.
//!
//! The value of an attribute is read in two calls. The first carries no buffers and makes the
//! module write the length of each value; the lengths are held against the buffers that the
//! caller brought, one attribute after the other; only if every buffer is exactly as long as
//! its value does the second call carry the buffers for the module to fill. Objects are found
//! in batches, until a batch comes back empty.

use crate::gateway::{batch_of, take_batch, Call, Function, Operation, Plain, Reply, Step};
use crate::types::byte_order::ByteOrder;
use crate::types::function::{classify, Rv, RvError};
use crate::types::mechanism::Mechanism;
use crate::types::object::{
    attribute_info_of, decode_template, decode_template_spec, encode_template,
    encode_template_spec, probe_spec, probe_template, template_fits, Attribute, AttributeInfo,
    AttributeType, AttributeView, ObjectHandle, RawAttribute, RawAttributeView,
};
use crate::types::session::Session;
use crate::{Error, Pkcs11};
use vstd::prelude::*;

verus! {

/// How many handles are asked for in one batch of a search.
pub const MAX_OBJECT_COUNT: usize = 10;

/// What a new object is made from, beside its template.
#[derive(Debug, Clone, Copy)]
pub enum ObjectRequest<'a> {
    /// From the template alone.
    Create { session: u64 },
    /// A key that the module generates.
    Generate { session: u64, mechanism: &'a Mechanism },
    /// A key that the module unwraps from bytes.
    Unwrap { session: u64, mechanism: &'a Mechanism, unwrapping_key: u64, wrapped_key: &'a [u8] },
    /// A key that the module derives from another.
    Derive { session: u64, mechanism: &'a Mechanism, base_key: u64 },
}

impl<'a> ObjectRequest<'a> {
    /// The function that makes the object.
    pub open spec fn function(self) -> Function {
        match self {
            ObjectRequest::Create { .. } => Function::CreateObject,
            ObjectRequest::Generate { .. } => Function::GenerateKey,
            ObjectRequest::Unwrap { .. } => Function::UnwrapKey,
            ObjectRequest::Derive { .. } => Function::DeriveKey,
        }
    }
}

/// The making of one object: one call, which gives the handle of the object.
#[derive(Debug)]
pub struct NewObject<'a> {
    pub client: &'a Pkcs11,
    pub request: ObjectRequest<'a>,
    pub template: Vec<RawAttribute>,
}

impl<'a> NewObject<'a> {
    /// Whether `call` is the call that this operation asks for: the function of the request,
    /// with the arguments of the request and the template.
    pub open spec fn asks(&self, call: Call) -> bool {
        match self.request {
            ObjectRequest::Create { session } => {
                &&& call matches Call::CreateObject { session: s, template: t }
                &&& s == session
                &&& t@ == self.template@
            },
            ObjectRequest::Generate { session, mechanism } => {
                &&& call matches Call::GenerateKey { session: s, mechanism: m, template: t }
                &&& s == session
                &&& m == mechanism
                &&& t@ == self.template@
            },
            ObjectRequest::Unwrap { session, mechanism, unwrapping_key, wrapped_key } => {
                &&& call matches Call::UnwrapKey {
                    session: s,
                    mechanism: m,
                    unwrapping_key: k,
                    wrapped_key: w,
                    template: t,
                }
                &&& s == session
                &&& m == mechanism
                &&& k == unwrapping_key
                &&& w == wrapped_key
                &&& t@ == self.template@
            },
            ObjectRequest::Derive { session, mechanism, base_key } => {
                &&& call matches Call::DeriveKey {
                    session: s,
                    mechanism: m,
                    base_key: k,
                    template: t,
                }
                &&& s == session
                &&& m == mechanism
                &&& k == base_key
                &&& t@ == self.template@
            },
        }
    }

}

impl<'a> Operation for NewObject<'a> {
    type Output = ObjectHandle;

    open spec fn gateway(&self) -> &Pkcs11 {
        self.client
    }

    open spec fn function(&self) -> Function {
        self.request.function()
    }

    /// The call to make, or the error of its missing entry.
    fn call(&self) -> (r: Result<Call<'_>, Error>)
        ensures
            match r {
                Ok(call) => self.client.functions().has(self.request.function()) && self.asks(
                    call,
                ),
                Err(e) => e == Error::NullFunctionPointer && !self.client.functions().has(
                    self.request.function(),
                ),
            },
    {
        let template = self.template.as_slice();
        let call = match self.request {
            ObjectRequest::Create { session } => Call::CreateObject { session, template },
            ObjectRequest::Generate { session, mechanism } => Call::GenerateKey {
                session,
                mechanism,
                template,
            },
            ObjectRequest::Unwrap {
                session,
                mechanism,
                unwrapping_key,
                wrapped_key,
            } => Call::UnwrapKey { session, mechanism, unwrapping_key, wrapped_key, template },
            ObjectRequest::Derive { session, mechanism, base_key } => Call::DeriveKey {
                session,
                mechanism,
                base_key,
                template,
            },
        };
        self.client.dispatch(call)
    }

    /// The operation ends: with the error that the returned value stands for, or with the
    /// handle that the module wrote.
    fn resume(self, reply: Reply) -> (step: Step<Self, ObjectHandle>)
        ensures
            match reply.outcome() {
                Err(e) => step == Step::<Self, ObjectHandle>::Done(Err(e)),
                Ok(()) => step matches Step::Done(Ok(object)) && object@ == reply.value,
            },
    {
        match reply.result() {
            Err(e) => Step::Done(Err(e)),
            Ok(()) => Step::Done(Ok(ObjectHandle::new(reply.value))),
        }
    }
}

/// Where a search stands.
#[derive(Debug, Clone, Copy, PartialEq, Eq, Structural)]
pub enum SearchPhase {
    /// The search is to be set up with its template.
    Init,
    /// Batches of handles are asked for.
    Drain,
    /// The search is to be released.
    Final,
}

/// A search for the objects that match a template. It is set up, then drained batch by batch
/// until a batch comes back empty, then released. The empty batch is the one way out of the
/// drain; a failure on the way ends the search at once, without the release.
#[derive(Debug)]
pub struct FindObjects<'a> {
    pub client: &'a Pkcs11,
    pub session: u64,
    pub template: Vec<RawAttribute>,
    /// The handles of the batches so far, in the order in which they came.
    pub found: Vec<u64>,
    pub phase: SearchPhase,
}

impl<'a> FindObjects<'a> {
    /// Whether `call` is the call that the search asks for next.
    pub open spec fn asks(&self, call: Call) -> bool {
        match self.phase {
            SearchPhase::Init => {
                &&& call matches Call::FindObjectsInit { session, template }
                &&& session == self.session
                &&& template@ == self.template@
            },
            SearchPhase::Drain => call == (Call::FindObjects {
                session: self.session,
                max_object_count: MAX_OBJECT_COUNT,
            }),
            SearchPhase::Final => call == (Call::FindObjectsFinal { session: self.session }),
        }
    }

    /// Where the search stands after a reply. A failure ends it. After the setup the drain
    /// begins. In the drain a batch that is not empty is added to the handles found, and the
    /// drain goes on; an empty batch leads to the release. After the release the search ends
    /// with the objects of the handles found.
    pub open spec fn resumed(self, reply: Reply, step: Step<Self, Vec<ObjectHandle>>) -> bool {
        match reply.outcome() {
            Err(e) => step == Step::<Self, Vec<ObjectHandle>>::Done(Err(e)),
            Ok(()) => match self.phase {
                SearchPhase::Init => step == Step::<Self, Vec<ObjectHandle>>::Continue(
                    FindObjects { phase: SearchPhase::Drain, ..self },
                ),
                SearchPhase::Drain => match batch_of(reply.handles@, reply.value) {
                    Err(e) => step == Step::<Self, Vec<ObjectHandle>>::Done(Err(e)),
                    Ok(batch) => if batch.len() == 0 {
                        step == Step::<Self, Vec<ObjectHandle>>::Continue(
                            FindObjects { phase: SearchPhase::Final, ..self },
                        )
                    } else {
                        &&& step matches Step::Continue(next)
                        &&& next.client == self.client
                        &&& next.session == self.session
                        &&& next.template == self.template
                        &&& next.found@ == self.found@ + batch
                        &&& next.phase == SearchPhase::Drain
                    },
                },
                SearchPhase::Final => {
                    &&& step matches Step::Done(Ok(objects))
                    &&& objects.deep_view() == self.found@
                },
            },
        }
    }

}

impl<'a> Operation for FindObjects<'a> {
    type Output = Vec<ObjectHandle>;

    open spec fn gateway(&self) -> &Pkcs11 {
        self.client
    }

    open spec fn function(&self) -> Function {
        match self.phase {
            SearchPhase::Init => Function::FindObjectsInit,
            SearchPhase::Drain => Function::FindObjects,
            SearchPhase::Final => Function::FindObjectsFinal,
        }
    }

    /// The call to make, or the error of its missing entry.
    fn call(&self) -> (r: Result<Call<'_>, Error>)
        ensures
            match r {
                Ok(call) => self.client.functions().has(self.function()) && self.asks(call),
                Err(e) => e == Error::NullFunctionPointer && !self.client.functions().has(
                    self.function(),
                ),
            },
    {
        let call = match self.phase {
            SearchPhase::Init => Call::FindObjectsInit {
                session: self.session,
                template: self.template.as_slice(),
            },
            SearchPhase::Drain => Call::FindObjects {
                session: self.session,
                max_object_count: MAX_OBJECT_COUNT,
            },
            SearchPhase::Final => Call::FindObjectsFinal { session: self.session },
        };
        self.client.dispatch(call)
    }

    /// Takes the reply to the call and says where the search stands then.
    fn resume(self, reply: Reply) -> (step: Step<Self, Vec<ObjectHandle>>)
        ensures
            self.resumed(reply, step),
    {
        if let Err(e) = reply.result() {
            return Step::Done(Err(e));
        }
        match self.phase {
            SearchPhase::Init => Step::Continue(FindObjects { phase: SearchPhase::Drain, ..self }),
            SearchPhase::Drain => {
                let count = reply.value;
                match take_batch(reply.handles, count) {
                    Err(e) => Step::Done(Err(e)),
                    Ok(batch) => {
                        if batch.len() == 0 {
                            Step::Continue(FindObjects { phase: SearchPhase::Final, ..self })
                        } else {
                            let mut batch = batch;
                            let mut found = self.found;
                            found.append(&mut batch);
                            Step::Continue(
                                FindObjects {
                                    client: self.client,
                                    session: self.session,
                                    template: self.template,
                                    found,
                                    phase: SearchPhase::Drain,
                                },
                            )
                        }
                    },
                }
            },
            SearchPhase::Final => Step::Done(Ok(object_handles(self.found))),
        }
    }
}

/// The handles of the first `n` replies of a drain, one batch after the other.
pub open spec fn collected(replies: Seq<Reply>, n: int) -> Seq<u64>
    decreases n,
{
    if n <= 0 {
        Seq::empty()
    } else {
        collected(replies, n - 1) + batch_of(replies[n - 1].handles@, replies[n - 1].value)->Ok_0
    }
}

/// Whether the replies lead the search from each of the states to the next.
pub open spec fn leads(states: Seq<FindObjects>, replies: Seq<Reply>) -> bool {
    &&& states.len() == replies.len() + 1
    &&& forall|i: int|
        0 <= i < replies.len() ==> (#[trigger] states[i]).resumed(
            replies[i],
            Step::Continue(states[i + 1]),
        )
}

/// A drain ends at the first empty batch, and not before. Of a search that is in its drain
/// and gets a row of successful replies, each with a batch that is not empty but the last,
/// whose batch is empty: every one of the replies answered a call for a batch, so there were
/// as many such calls as replies; after the last the search is at its release; and it has
/// found the handles that it had, followed by those of the batches in their order.
pub proof fn lemma_drain(states: Seq<FindObjects>, replies: Seq<Reply>)
    requires
        replies.len() >= 1,
        leads(states, replies),
        states[0].phase == SearchPhase::Drain,
        forall|i: int|
            0 <= i < replies.len() ==> (#[trigger] replies[i]).outcome() is Ok && batch_of(
                replies[i].handles@,
                replies[i].value,
            ) is Ok,
        forall|i: int|
            0 <= i < replies.len() - 1 ==> batch_of(
                (#[trigger] replies[i]).handles@,
                replies[i].value,
            )->Ok_0.len() > 0,
        batch_of(replies.last().handles@, replies.last().value)->Ok_0.len() == 0,
    ensures
        forall|i: int|
            0 <= i < replies.len() ==> (#[trigger] states[i]).phase == SearchPhase::Drain,
        states.last().phase == SearchPhase::Final,
        states.last().found@ == states[0].found@ + collected(replies, replies.len() - 1),
{
    lemma_drain_goes_on(states, replies, replies.len() - 1);
    let last = replies.len() - 1;
    assert(states[last].resumed(replies[last], Step::Continue(states[last + 1])));
    assert forall|i: int| 0 <= i < replies.len() implies (#[trigger] states[i]).phase
        == SearchPhase::Drain by {
        lemma_drain_goes_on(states, replies, i);
    }
}

/// As long as the batches are not empty the search stays in its drain and adds them up.
proof fn lemma_drain_goes_on(states: Seq<FindObjects>, replies: Seq<Reply>, n: int)
    requires
        0 <= n < replies.len(),
        leads(states, replies),
        states[0].phase == SearchPhase::Drain,
        forall|i: int|
            0 <= i < replies.len() ==> (#[trigger] replies[i]).outcome() is Ok && batch_of(
                replies[i].handles@,
                replies[i].value,
            ) is Ok,
        forall|i: int|
            0 <= i < n ==> batch_of((#[trigger] replies[i]).handles@, replies[i].value)->Ok_0.len()
                > 0,
    ensures
        states[n].phase == SearchPhase::Drain,
        states[n].found@ == states[0].found@ + collected(replies, n),
    decreases n,
{
    if n > 0 {
        lemma_drain_goes_on(states, replies, n - 1);
        assert(states[n - 1].resumed(replies[n - 1], Step::Continue(states[n])));
        assert(replies[n - 1].outcome() is Ok);
        assert(states[n].found@ =~= states[0].found@ + collected(replies, n));
    } else {
        assert(states[0].found@ + collected(replies, 0) =~= states[0].found@);
    }
}

/// The objects of the given handles, in the same order.
pub fn object_handles(handles: Vec<u64>) -> (objects: Vec<ObjectHandle>)
    ensures
        objects.deep_view() == handles@,
{
    let mut objects: Vec<ObjectHandle> = Vec::new();
    let mut i: usize = 0;
    while i < handles.len()
        invariant
            i <= handles@.len(),
            objects.deep_view() == handles@.subrange(0, i as int),
        decreases handles@.len() - i,
    {
        let ghost before = objects.deep_view();
        let object = ObjectHandle::new(handles[i]);
        objects.push(object);
        assert(objects.deep_view() =~= before.push(object@));
        i = i + 1;
        assert(objects.deep_view() =~= handles@.subrange(0, i as int));
    }
    assert(handles@.subrange(0, i as int) =~= handles@);
    objects
}

/// The lengths that the triples of a template carry, in the same order.
pub open spec fn lengths(template: Seq<RawAttributeView>) -> Seq<u64> {
    Seq::new(template.len(), |i: int| template[i].len)
}

/// Whether a returned value lets the lengths of a template be read: success does, and so do
/// the two values with which the module says that some attribute of the template is
/// sensitive, or is none that the object has. The module has then marked the length of each
/// such attribute, and written the others.
pub open spec fn lengths_were_written(rv: Rv) -> bool {
    rv == Rv::Success || rv == Rv::Error(RvError::AttributeSensitive) || rv == Rv::Error(
        RvError::AttributeTypeInvalid,
    )
}

/// What the lengths of a template say of its attributes, in the same order.
pub open spec fn attribute_infos(lens: Seq<u64>) -> Result<Seq<AttributeInfo>, Error> {
    if forall|i: int| 0 <= i < lens.len() ==> attribute_info_of(#[trigger] lens[i]) is Ok {
        Ok(Seq::new(lens.len(), |i: int| attribute_info_of(lens[i])->Ok_0))
    } else {
        Err(Error::TryFromInt)
    }
}

/// A query for the lengths of attributes of an object: one call without buffers, which makes
/// the module write the length of each value.
#[derive(Debug)]
pub struct AttributeQuery<'a> {
    pub client: &'a Pkcs11,
    pub session: u64,
    pub object: u64,
    pub template: Vec<RawAttribute>,
}

impl<'a> AttributeQuery<'a> {
    /// What the query ends with: the error that the returned value stands for, unless the
    /// lengths were written all the same; then what the lengths say, for a reply that has as
    /// many triples as were sent.
    pub open spec fn answer(&self, reply: Reply) -> Result<Seq<AttributeInfo>, Error> {
        match classify(reply.rv) {
            Rv::Error(e) if !lengths_were_written(Rv::Error(e)) => Err(Error::Pkcs11(e)),
            _ => if reply.template@.len() != self.template@.len() {
                Err(Error::TryFromSlice)
            } else {
                attribute_infos(lengths(reply.template.deep_view()))
            },
        }
    }

}

impl<'a> Operation for AttributeQuery<'a> {
    type Output = Vec<AttributeInfo>;

    open spec fn gateway(&self) -> &Pkcs11 {
        self.client
    }

    open spec fn function(&self) -> Function {
        Function::GetAttributeValue
    }

    /// The call to make, or the error of its missing entry.
    fn call(&self) -> (r: Result<Call<'_>, Error>)
        ensures
            match r {
                Ok(call) => {
                    &&& self.client.functions().has(Function::GetAttributeValue)
                    &&& call matches Call::GetAttributeValue { session, object, template }
                    &&& session == self.session
                    &&& object == self.object
                    &&& template@ == self.template@
                },
                Err(e) => e == Error::NullFunctionPointer && !self.client.functions().has(
                    Function::GetAttributeValue,
                ),
            },
    {
        self.client.dispatch(
            Call::GetAttributeValue {
                session: self.session,
                object: self.object,
                template: self.template.as_slice(),
            },
        )
    }

    /// Takes the reply to the call: the query ends with its answer.
    fn resume(self, reply: Reply) -> (step: Step<Self, Vec<AttributeInfo>>)
        ensures
            match self.answer(reply) {
                Err(e) => step == Step::<Self, Vec<AttributeInfo>>::Done(Err(e)),
                Ok(infos) => step matches Step::Done(Ok(v)) && v@ == infos,
            },
    {
        match Rv::from(reply.rv) {
            Rv::Success
            | Rv::Error(RvError::AttributeSensitive)
            | Rv::Error(RvError::AttributeTypeInvalid) => {},
            Rv::Error(e) => {
                return Step::Done(Err(Error::Pkcs11(e)));
            },
        }
        if reply.template.len() != self.template.len() {
            return Step::Done(Err(Error::TryFromSlice));
        }
        let ghost lens = lengths(reply.template.deep_view());
        let mut infos: Vec<AttributeInfo> = Vec::new();
        let mut i: usize = 0;
        while i < reply.template.len()
            invariant
                i <= reply.template@.len(),
                lengths_were_written(classify(reply.rv)),
                reply.template@.len() == self.template@.len(),
                lens == lengths(reply.template.deep_view()),
                infos@.len() == i,
                forall|j: int|
                    0 <= j < i ==> attribute_info_of(#[trigger] lens[j]) == Ok::<
                        AttributeInfo,
                        Error,
                    >(infos@[j]),
            decreases reply.template@.len() - i,
        {
            assert(lens[i as int] == reply.template@[i as int].len);
            match AttributeInfo::try_from(reply.template[i].len) {
                Err(e) => {
                    assert(attribute_info_of(lens[i as int]) is Err);
                    return Step::Done(Err(e));
                },
                Ok(info) => {
                    infos.push(info);
                },
            }
            i = i + 1;
        }
        assert(infos@ =~= Seq::new(lens.len(), |i: int| attribute_info_of(lens[i])->Ok_0));
        Step::Done(Ok(infos))
    }
}

/// The first place from `from` on at which two rows of lengths differ: the end of the rows
/// where they do not.
pub open spec fn first_difference(given: Seq<u64>, probed: Seq<u64>, from: int) -> int
    decreases given.len() - from,
{
    if from < 0 || from >= given.len() || from >= probed.len() || given[from] != probed[from] {
        from
    } else {
        first_difference(given, probed, from + 1)
    }
}

/// How the buffers that the caller brought stand against the lengths that the module wrote.
/// The two templates must have the same number of triples. The first attribute, in the order
/// of the template, whose buffer is not exactly as long as its value decides: a buffer too
/// short is one error, a buffer too long another, and each names the attribute and both
/// lengths. Where every buffer fits there is no error.
pub open spec fn validation(given: Seq<RawAttributeView>, probed: Seq<RawAttributeView>) -> Result<
    (),
    Error,
> {
    let at = first_difference(lengths(given), lengths(probed), 0);
    if given.len() != probed.len() {
        Err(Error::TryFromSlice)
    } else if at >= given.len() {
        Ok(())
    } else if given[at].len < probed[at].len {
        Err(
            Error::BufferTooSmall {
                attribute_type: given[at].type_,
                expected: probed[at].len,
                given: given[at].len,
            },
        )
    } else {
        Err(
            Error::BufferTooBig {
                attribute_type: given[at].type_,
                expected: probed[at].len,
                given: given[at].len,
            },
        )
    }
}

/// Where two rows agree up to a place, the first difference from the start is the first
/// difference from that place.
pub proof fn lemma_first_difference(given: Seq<u64>, probed: Seq<u64>, from: int, upto: int)
    requires
        0 <= from <= upto <= given.len(),
        given.len() == probed.len(),
        forall|j: int| from <= j < upto ==> given[j] == probed[j],
    ensures
        first_difference(given, probed, from) == first_difference(given, probed, upto),
    decreases upto - from,
{
    if from < upto {
        lemma_first_difference(given, probed, from + 1, upto);
    }
}

/// Of two templates of one length whose buffers fit up to an attribute: if the buffer of that
/// attribute is one byte short, the validation fails with the error of a buffer too small; if
/// it is one byte long, with that of a buffer too big; and both name that attribute. If every
/// buffer fits, the validation succeeds.
pub proof fn lemma_validation(given: Seq<RawAttributeView>, probed: Seq<RawAttributeView>, at: int)
    requires
        given.len() == probed.len(),
        0 <= at <= given.len(),
        forall|j: int| 0 <= j < at ==> given[j].len == probed[j].len,
    ensures
        at == given.len() ==> validation(given, probed) == Ok::<(), Error>(()),
        at < given.len() && given[at].len + 1 == probed[at].len ==> validation(given, probed)
            == Err::<(), Error>(
            Error::BufferTooSmall {
                attribute_type: given[at].type_,
                expected: probed[at].len,
                given: given[at].len,
            },
        ),
        at < given.len() && given[at].len == probed[at].len + 1 ==> validation(given, probed)
            == Err::<(), Error>(
            Error::BufferTooBig {
                attribute_type: given[at].type_,
                expected: probed[at].len,
                given: given[at].len,
            },
        ),
{
    lemma_first_difference(lengths(given), lengths(probed), 0, at);
}

/// The first difference of two rows lies within the rows or at their end, and the rows agree
/// before it.
pub proof fn lemma_first_difference_is_first(given: Seq<u64>, probed: Seq<u64>, from: int)
    requires
        0 <= from <= given.len(),
        given.len() == probed.len(),
    ensures
        from <= first_difference(given, probed, from) <= given.len(),
        forall|j: int| from <= j < first_difference(given, probed, from) ==> given[j] == probed[j],
        first_difference(given, probed, from) < given.len() ==> given[first_difference(
            given,
            probed,
            from,
        )] != probed[first_difference(given, probed, from)],
    decreases given.len() - from,
{
    if from < given.len() && given[from] == probed[from] {
        lemma_first_difference_is_first(given, probed, from + 1);
    }
}

/// The validation succeeds only where every buffer is exactly as long as its value: there is
/// no other way to the second call.
pub proof fn lemma_validation_is_exact(given: Seq<RawAttributeView>, probed: Seq<RawAttributeView>)
    ensures
        validation(given, probed) is Ok <==> given.len() == probed.len() && forall|j: int|
            0 <= j < given.len() ==> (#[trigger] given[j]).len == probed[j].len,
{
    if given.len() == probed.len() {
        let g = lengths(given);
        let p = lengths(probed);
        lemma_first_difference_is_first(g, p, 0);
        let at = first_difference(g, p, 0);
        if at < given.len() {
            assert(g[at] == given[at].len && p[at] == probed[at].len);
        } else {
            assert forall|j: int| 0 <= j < given.len() implies (#[trigger] given[j]).len
                == probed[j].len by {
                assert(g[j] == p[j]);
            }
        }
    }
}

/// Holds the buffers that the caller brought against the lengths that the module wrote.
pub fn validate_lengths(given: &[RawAttribute], probed: &[RawAttribute]) -> (r: Result<(), Error>)
    ensures
        r == validation(given.deep_view(), probed.deep_view()),
{
    if given.len() != probed.len() {
        return Err(Error::TryFromSlice);
    }
    let ghost g = lengths(given.deep_view());
    let ghost p = lengths(probed.deep_view());
    let mut i: usize = 0;
    while i < given.len()
        invariant
            i <= given@.len(),
            given@.len() == probed@.len(),
            g == lengths(given.deep_view()),
            p == lengths(probed.deep_view()),
            forall|j: int| 0 <= j < i ==> g[j] == p[j],
        decreases given@.len() - i,
    {
        let have = given[i].len;
        let want = probed[i].len;
        if have != want {
            proof {
                lemma_first_difference(g, p, 0, i as int);
                assert(g[i as int] == have && p[i as int] == want);
            }
            if have < want {
                return Err(
                    Error::BufferTooSmall {
                        attribute_type: given[i].type_,
                        expected: want,
                        given: have,
                    },
                );
            } else {
                return Err(
                    Error::BufferTooBig {
                        attribute_type: given[i].type_,
                        expected: want,
                        given: have,
                    },
                );
            }
        }
        i = i + 1;
    }
    proof {
        lemma_first_difference(g, p, 0, i as int);
    }
    Ok(())
}

/// Where the reading of attribute values stands.
#[derive(Debug, Clone, Copy, PartialEq, Eq, Structural)]
pub enum FetchPhase {
    /// The lengths are asked for.
    Probe,
    /// The values are asked for.
    Fetch,
}

/// The reading of the values of attributes of an object into buffers that the caller
/// brought: each attribute of the caller's template says by its kind which value is wanted,
/// and by its own value how long the buffer for it is.
#[derive(Debug)]
pub struct AttributeFetch<'a> {
    pub client: &'a Pkcs11,
    pub session: u64,
    pub object: u64,
    /// The template without buffers, with which the lengths are asked for.
    pub probe: Vec<RawAttribute>,
    /// The template with the buffers of the caller.
    pub given: Vec<RawAttribute>,
    pub phase: FetchPhase,
}

impl<'a> AttributeFetch<'a> {
    /// Where the reading stands after a reply. The reply to the first call must let the
    /// lengths be read, and the buffers must pass the validation against them; before that is
    /// so, no buffer goes to the module. The reply to the second call must be a success; then
    /// the reading ends with the attributes that the triples of the reply hold.
    pub open spec fn resumed(self, reply: Reply, step: Step<Self, Vec<Attribute>>) -> bool {
        match self.phase {
            FetchPhase::Probe => match classify(reply.rv) {
                Rv::Error(e) if !lengths_were_written(Rv::Error(e)) => step == Step::<
                    Self,
                    Vec<Attribute>,
                >::Done(Err(Error::Pkcs11(e))),
                _ => match validation(self.given.deep_view(), reply.template.deep_view()) {
                    Err(e) => step == Step::<Self, Vec<Attribute>>::Done(Err(e)),
                    Ok(()) => step == Step::<Self, Vec<Attribute>>::Continue(
                        AttributeFetch { phase: FetchPhase::Fetch, ..self },
                    ),
                },
            },
            FetchPhase::Fetch => match reply.outcome() {
                Err(e) => step == Step::<Self, Vec<Attribute>>::Done(Err(e)),
                Ok(()) => match decode_template_spec(
                    reply.template.deep_view(),
                    self.client.order(),
                ) {
                    Err(e) => step == Step::<Self, Vec<Attribute>>::Done(Err(e)),
                    Ok(attributes) => step matches Step::Done(Ok(v)) && v.deep_view()
                        == attributes,
                },
            },
        }
    }

}

impl<'a> Operation for AttributeFetch<'a> {
    type Output = Vec<Attribute>;

    open spec fn gateway(&self) -> &Pkcs11 {
        self.client
    }

    open spec fn function(&self) -> Function {
        Function::GetAttributeValue
    }

    /// The call to make, or the error of its missing entry: the template without buffers
    /// first, the one with the buffers then.
    fn call(&self) -> (r: Result<Call<'_>, Error>)
        ensures
            match r {
                Ok(call) => {
                    &&& self.client.functions().has(Function::GetAttributeValue)
                    &&& call matches Call::GetAttributeValue { session, object, template }
                    &&& session == self.session
                    &&& object == self.object
                    &&& template@ == match self.phase {
                        FetchPhase::Probe => self.probe@,
                        FetchPhase::Fetch => self.given@,
                    }
                },
                Err(e) => e == Error::NullFunctionPointer && !self.client.functions().has(
                    Function::GetAttributeValue,
                ),
            },
    {
        let template = match self.phase {
            FetchPhase::Probe => self.probe.as_slice(),
            FetchPhase::Fetch => self.given.as_slice(),
        };
        self.client.dispatch(
            Call::GetAttributeValue { session: self.session, object: self.object, template },
        )
    }

    /// Takes the reply to the call and says where the reading stands then.
    fn resume(self, reply: Reply) -> (step: Step<Self, Vec<Attribute>>)
        ensures
            self.resumed(reply, step),
    {
        match self.phase {
            FetchPhase::Probe => {
                match Rv::from(reply.rv) {
                    Rv::Success
                    | Rv::Error(RvError::AttributeSensitive)
                    | Rv::Error(RvError::AttributeTypeInvalid) => {},
                    Rv::Error(e) => {
                        return Step::Done(Err(Error::Pkcs11(e)));
                    },
                }
                match validate_lengths(self.given.as_slice(), reply.template.as_slice()) {
                    Err(e) => Step::Done(Err(e)),
                    Ok(()) => Step::Continue(AttributeFetch { phase: FetchPhase::Fetch, ..self }),
                }
            },
            FetchPhase::Fetch => {
                if let Err(e) = reply.result() {
                    return Step::Done(Err(e));
                }
                Step::Done(decode_template(reply.template.as_slice(), self.client.byte_order()))
            },
        }
    }
}

/// The kinds of the attributes of a template, in the same order.
pub open spec fn kinds_of(template: Seq<AttributeView>) -> Seq<AttributeType> {
    Seq::new(template.len(), |i: int| template[i].kind)
}

/// The kinds of the attributes of a template, in the same order.
pub fn attribute_types(template: &[Attribute]) -> (kinds: Vec<AttributeType>)
    ensures
        kinds@ == kinds_of(template.deep_view()),
{
    let mut kinds: Vec<AttributeType> = Vec::new();
    let mut i: usize = 0;
    while i < template.len()
        invariant
            i <= template@.len(),
            kinds@ == kinds_of(template.deep_view()).subrange(0, i as int),
        decreases template@.len() - i,
    {
        kinds.push(template[i].attribute_type());
        i = i + 1;
        assert(kinds@ =~= kinds_of(template.deep_view()).subrange(0, i as int));
    }
    assert(kinds_of(template.deep_view()).subrange(0, i as int) =~= kinds_of(
        template.deep_view(),
    ));
    kinds
}

impl Pkcs11 {
    /// Searches the objects of a session that match a template.
    pub fn find_objects<'a>(&'a self, session: &Session, template: &[Attribute]) -> (r: Result<
        FindObjects<'a>,
        Error,
    >)
        ensures
            match r {
                Ok(op) => {
                    &&& template_fits(template.deep_view())
                    &&& op.client == self
                    &&& op.session == session.handle()
                    &&& op.template.deep_view() == encode_template_spec(
                        template.deep_view(),
                        self.order(),
                    )
                    &&& op.found@ == Seq::<u64>::empty()
                    &&& op.phase == SearchPhase::Init
                },
                Err(e) => e == Error::TryFromInt && !template_fits(template.deep_view()),
            },
    {
        let template = encode_template(template, self.byte_order())?;
        Ok(
            FindObjects {
                client: self,
                session: session.handle(),
                template,
                found: Vec::new(),
                phase: SearchPhase::Init,
            },
        )
    }

    /// Creates an object from a template.
    pub fn create_object<'a>(&'a self, session: &Session, template: &[Attribute]) -> (r: Result<
        NewObject<'a>,
        Error,
    >)
        ensures
            match r {
                Ok(op) => {
                    &&& template_fits(template.deep_view())
                    &&& op.client == self
                    &&& op.request == (ObjectRequest::Create { session: session.handle() })
                    &&& op.template.deep_view() == encode_template_spec(
                        template.deep_view(),
                        self.order(),
                    )
                },
                Err(e) => e == Error::TryFromInt && !template_fits(template.deep_view()),
            },
    {
        let template = encode_template(template, self.byte_order())?;
        Ok(
            NewObject {
                client: self,
                request: ObjectRequest::Create { session: session.handle() },
                template,
            },
        )
    }

    /// Destroys an object.
    pub fn destroy_object(&self, session: &Session, object: ObjectHandle) -> (op: Plain<'_>)
        ensures
            op.client == self,
            op.request == (Call::DestroyObject { session: session.handle(), object: object@ }),
    {
        Plain {
            client: self,
            request: Call::DestroyObject { session: session.handle(), object: object.handle() },
        }
    }

    /// Reads the values of attributes of an object into the buffers of a template: each
    /// attribute of the template says by its kind which value is wanted, and by its value how
    /// long the buffer for it is. The buffers must be exactly as long as the values are.
    pub fn get_attribute_value<'a>(
        &'a self,
        session: &Session,
        object: ObjectHandle,
        template: &[Attribute],
    ) -> (r: Result<AttributeFetch<'a>, Error>)
        ensures
            match r {
                Ok(op) => {
                    &&& template_fits(template.deep_view())
                    &&& op.client == self
                    &&& op.session == session.handle()
                    &&& op.object == object@
                    &&& op.probe.deep_view() == Seq::new(
                        template@.len(),
                        |i: int| probe_spec(template.deep_view()[i].kind),
                    )
                    &&& op.given.deep_view() == encode_template_spec(
                        template.deep_view(),
                        self.order(),
                    )
                    &&& op.phase == FetchPhase::Probe
                },
                Err(e) => e == Error::TryFromInt && !template_fits(template.deep_view()),
            },
    {
        let given = encode_template(template, self.byte_order())?;
        let kinds = attribute_types(template);
        let probe = probe_template(kinds.as_slice());
        assert(probe.deep_view() =~= Seq::new(
            template@.len(),
            |i: int| probe_spec(template.deep_view()[i].kind),
        ));
        Ok(
            AttributeFetch {
                client: self,
                session: session.handle(),
                object: object.handle(),
                probe,
                given,
                phase: FetchPhase::Probe,
            },
        )
    }

    /// Asks for the lengths of the values of attributes of an object, without reading the
    /// values.
    pub fn get_attribute_info<'a>(
        &'a self,
        session: &Session,
        object: ObjectHandle,
        attributes: &[AttributeType],
    ) -> (op: AttributeQuery<'a>)
        ensures
            op.client == self,
            op.session == session.handle(),
            op.object == object@,
            op.template.deep_view() == Seq::new(
                attributes@.len(),
                |i: int| probe_spec(attributes@[i]),
            ),
    {
        AttributeQuery {
            client: self,
            session: session.handle(),
            object: object.handle(),
            template: probe_template(attributes),
        }
    }
}

} // verus!
