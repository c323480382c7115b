//! Middleware that sets a header on every request before it reaches the transport.
//!
//! A policy says how a produced value meets the values already under the name:
//! it replaces them, joins them, or is used only when there are none.

use vstd::prelude::*;

use crate::header::{
    lemma_values_in_push, lemma_values_without, values_in, without, EntryView, HeaderMap,
    HeaderName, HeaderValue,
};
use crate::request::Request;

verus! {

/// Produces the header value for a request, or nothing to leave the request as it is.
pub trait MakeHeaderValue<T>: Sized {
    /// What the producer yields for every request, when that is fixed by the producer
    /// itself; `None`, the default, for a producer whose answer depends on the request or
    /// its state.
    open spec fn fixed_output(&self) -> Option<Option<(Seq<u8>, bool)>> {
        None
    }

    fn make_header_value(&mut self, message: &T) -> (r: Option<HeaderValue>)
        ensures
            old(self).fixed_output() is Some ==> value_view(r) == old(self).fixed_output()->0
                && *final(self) == *old(self),
    ;
}

/// A fixed value is produced for every request.
impl<T> MakeHeaderValue<T> for HeaderValue {
    open spec fn fixed_output(&self) -> Option<Option<(Seq<u8>, bool)>> {
        Some(Some(self@))
    }

    fn make_header_value(&mut self, _message: &T) -> (r: Option<HeaderValue>) {
        Some(self.duplicate())
    }
}

/// A value that may be absent: when absent, no request is changed.
impl<T> MakeHeaderValue<T> for Option<HeaderValue> {
    open spec fn fixed_output(&self) -> Option<Option<(Seq<u8>, bool)>> {
        Some(value_view(*self))
    }

    fn make_header_value(&mut self, _message: &T) -> (r: Option<HeaderValue>) {
        match self {
            Some(v) => Some(v.duplicate()),
            None => None,
        }
    }
}

/// How a produced value meets the values already under the name.
#[derive(Clone, Copy, Debug, PartialEq, Eq, Structural)]
pub enum InsertHeaderMode {
    /// Every value under the name is replaced by the produced one.
    Override,
    /// The produced value is added after the values under the name.
    Append,
    /// The produced value is added only when the name has no value.
    IfNotPresent,
}

pub open spec fn value_view(v: Option<HeaderValue>) -> Option<(Seq<u8>, bool)> {
    match v {
        Some(x) => Some(x@),
        None => None,
    }
}

/// The header lines after `mode` has met `produced` under `name`.
pub open spec fn merged(
    mode: InsertHeaderMode,
    headers: Seq<EntryView>,
    name: Seq<char>,
    produced: Option<(Seq<u8>, bool)>,
) -> Seq<EntryView> {
    match produced {
        None => headers,
        Some(v) => match mode {
            InsertHeaderMode::Override => without(headers, name).push((name, v)),
            InsertHeaderMode::Append => headers.push((name, v)),
            InsertHeaderMode::IfNotPresent => if values_in(headers, name).len() > 0 {
                headers
            } else {
                headers.push((name, v))
            },
        },
    }
}

/// Whether `after` is what some produced value, or none, makes of `before` under `mode`.
pub open spec fn merged_by_some_value(
    mode: InsertHeaderMode,
    before: Seq<EntryView>,
    name: Seq<char>,
    after: Seq<EntryView>,
) -> bool {
    exists|p: Option<(Seq<u8>, bool)>| after == merged(mode, before, name, p)
}

/// Whether two requests agree on everything but their headers.
pub open spec fn same_but_headers<B>(a: Request<B>, b: Request<B>) -> bool {
    &&& a.spec_method() == b.spec_method()
    &&& a.spec_uri() == b.spec_uri()
    &&& a.spec_version() == b.spec_version()
    &&& a.spec_body() == b.spec_body()
    &&& a.spec_extensions() == b.spec_extensions()
}

impl InsertHeaderMode {
    /// Merges a value that has been produced, or nothing, into the headers.
    pub fn insert_produced(self, name: &HeaderName, headers: &mut HeaderMap, produced: Option<
        HeaderValue,
    >)
        ensures
            final(headers)@ == merged(self, old(headers)@, name@, value_view(produced)),
    {
        match produced {
            None => {},
            Some(value) => match self {
                InsertHeaderMode::Override => headers.insert(name.duplicate(), value),
                InsertHeaderMode::Append => headers.append(name.duplicate(), value),
                InsertHeaderMode::IfNotPresent => {
                    if !headers.contains_key(name) {
                        headers.append(name.duplicate(), value);
                    }
                },
            },
        }
    }

    /// Applies the policy to a request. Under `IfNotPresent` a name that has a value
    /// is left alone without asking `make` for one.
    pub fn apply<B, M: MakeHeaderValue<Request<B>>>(
        self,
        name: &HeaderName,
        target: &mut Request<B>,
        make: &mut M,
    )
        ensures
            same_but_headers(*final(target), *old(target)),
            merged_by_some_value(
                self,
                old(target).spec_headers()@,
                name@,
                final(target).spec_headers()@,
            ),
            self == InsertHeaderMode::IfNotPresent && values_in(
                old(target).spec_headers()@,
                name@,
            ).len() > 0 ==> final(target).spec_headers()@ == old(target).spec_headers()@
                && *final(make) == *old(make),
            old(make).fixed_output() is Some ==> final(target).spec_headers()@ == merged(
                self,
                old(target).spec_headers()@,
                name@,
                old(make).fixed_output()->0,
            ),
    {
        if self == InsertHeaderMode::IfNotPresent && target.headers().contains_key(name) {
            assert(target.spec_headers()@ == merged(
                self,
                target.spec_headers()@,
                name@,
                None,
            ));
            assert(make.fixed_output() is Some ==> target.spec_headers()@ == merged(
                self,
                target.spec_headers()@,
                name@,
                make.fixed_output()->0,
            ));
            return ;
        }
        let produced = make.make_header_value(target);
        let ghost p = value_view(produced);
        let ghost before = target.spec_headers()@;
        self.insert_produced(name, target.headers_mut(), produced);
        assert(target.spec_headers()@ == merged(self, before, name@, p));
    }
}

/// How many values the policies leave under the name. Override leaves exactly the
/// produced value; Append adds one after the others; IfNotPresent adds one only when
/// there was none. With no produced value nothing changes, and no other name is touched.
pub proof fn lemma_policy_counts(
    mode: InsertHeaderMode,
    headers: Seq<EntryView>,
    name: Seq<char>,
    produced: Option<(Seq<u8>, bool)>,
    other: Seq<char>,
)
    ensures
        produced is None ==> merged(mode, headers, name, produced) == headers,
        produced is Some && mode == InsertHeaderMode::Override ==> values_in(
            merged(mode, headers, name, produced),
            name,
        ) == seq![produced->0],
        produced is Some && mode == InsertHeaderMode::Append ==> values_in(
            merged(mode, headers, name, produced),
            name,
        ) == values_in(headers, name).push(produced->0),
        mode == InsertHeaderMode::IfNotPresent && values_in(headers, name).len() >= 1 ==> values_in(
            merged(mode, headers, name, produced),
            name,
        ) == values_in(headers, name),
        produced is Some && mode == InsertHeaderMode::IfNotPresent && values_in(
            headers,
            name,
        ).len() == 0 ==> values_in(merged(mode, headers, name, produced), name) == seq![
            produced->0,
        ],
        other != name ==> values_in(merged(mode, headers, name, produced), other) == values_in(
            headers,
            other,
        ),
{
    if let Some(v) = produced {
        lemma_values_without(headers, name, name);
        lemma_values_without(headers, name, other);
        lemma_values_in_push(without(headers, name), (name, v), name);
        lemma_values_in_push(without(headers, name), (name, v), other);
        lemma_values_in_push(headers, (name, v), name);
        lemma_values_in_push(headers, (name, v), other);
        assert(Seq::<(Seq<u8>, bool)>::empty().push(v) =~= seq![v]);
    }
}

/// Layer that wraps a transport in [`SetRequestHeader`].
pub struct SetRequestHeaderLayer<M> {
    header_name: HeaderName,
    make: M,
    mode: InsertHeaderMode,
}

impl<M> SetRequestHeaderLayer<M> {
    pub closed spec fn spec_name(&self) -> Seq<char> {
        self.header_name@
    }

    pub closed spec fn spec_mode(&self) -> InsertHeaderMode {
        self.mode
    }

    pub closed spec fn spec_make(&self) -> M {
        self.make
    }

    /// Replaces any value under the name with the produced one.
    pub fn overriding(header_name: HeaderName, make: M) -> (r: Self)
        ensures
            r.spec_name() == header_name@,
            r.spec_mode() == InsertHeaderMode::Override,
            r.spec_make() == make,
    {
        Self::new(header_name, make, InsertHeaderMode::Override)
    }

    /// Adds the produced value after any values under the name.
    pub fn appending(header_name: HeaderName, make: M) -> (r: Self)
        ensures
            r.spec_name() == header_name@,
            r.spec_mode() == InsertHeaderMode::Append,
            r.spec_make() == make,
    {
        Self::new(header_name, make, InsertHeaderMode::Append)
    }

    /// Adds the produced value only where the name has no value.
    pub fn if_not_present(header_name: HeaderName, make: M) -> (r: Self)
        ensures
            r.spec_name() == header_name@,
            r.spec_mode() == InsertHeaderMode::IfNotPresent,
            r.spec_make() == make,
    {
        Self::new(header_name, make, InsertHeaderMode::IfNotPresent)
    }

    fn new(header_name: HeaderName, make: M, mode: InsertHeaderMode) -> (r: Self)
        ensures
            r.spec_name() == header_name@,
            r.spec_mode() == mode,
            r.spec_make() == make,
    {
        SetRequestHeaderLayer { header_name, make, mode }
    }

    pub fn header_name(&self) -> (r: &HeaderName)
        ensures
            r@ == self.spec_name(),
    {
        &self.header_name
    }

    pub fn mode(&self) -> (r: InsertHeaderMode)
        ensures
            r == self.spec_mode(),
    {
        self.mode
    }

    /// Wraps `inner` in a service with this layer's name, policy and a copy of its producer.
    pub fn layer<S>(&self, inner: S) -> (r: SetRequestHeader<S, M>)
        where
            M: Clone,
        ensures
            r.spec_name() == self.spec_name(),
            r.spec_mode() == self.spec_mode(),
            r.spec_inner() == inner,
            call_ensures(M::clone, (&self.spec_make(),), r.spec_make()),
    {
        SetRequestHeader::new(inner, self.header_name.duplicate(), self.make.clone(), self.mode)
    }
}

impl<M: Clone> Clone for SetRequestHeaderLayer<M> {
    fn clone(&self) -> Self {
        SetRequestHeaderLayer {
            header_name: self.header_name.duplicate(),
            make: self.make.clone(),
            mode: self.mode,
        }
    }
}

/// Middleware that sets a header on each request before handing it to `inner`.
pub struct SetRequestHeader<S, M> {
    inner: S,
    header_name: HeaderName,
    make: M,
    mode: InsertHeaderMode,
}

impl<S, M> SetRequestHeader<S, M> {
    pub closed spec fn spec_inner(&self) -> S {
        self.inner
    }

    pub closed spec fn spec_name(&self) -> Seq<char> {
        self.header_name@
    }

    pub closed spec fn spec_mode(&self) -> InsertHeaderMode {
        self.mode
    }

    pub closed spec fn spec_make(&self) -> M {
        self.make
    }

    /// Replaces any value under the name with the produced one.
    pub fn overriding(inner: S, header_name: HeaderName, make: M) -> (r: Self)
        ensures
            r.spec_inner() == inner,
            r.spec_name() == header_name@,
            r.spec_mode() == InsertHeaderMode::Override,
            r.spec_make() == make,
    {
        Self::new(inner, header_name, make, InsertHeaderMode::Override)
    }

    /// Adds the produced value after any values under the name.
    pub fn appending(inner: S, header_name: HeaderName, make: M) -> (r: Self)
        ensures
            r.spec_inner() == inner,
            r.spec_name() == header_name@,
            r.spec_mode() == InsertHeaderMode::Append,
            r.spec_make() == make,
    {
        Self::new(inner, header_name, make, InsertHeaderMode::Append)
    }

    /// Adds the produced value only where the name has no value.
    pub fn if_not_present(inner: S, header_name: HeaderName, make: M) -> (r: Self)
        ensures
            r.spec_inner() == inner,
            r.spec_name() == header_name@,
            r.spec_mode() == InsertHeaderMode::IfNotPresent,
            r.spec_make() == make,
    {
        Self::new(inner, header_name, make, InsertHeaderMode::IfNotPresent)
    }

    fn new(inner: S, header_name: HeaderName, make: M, mode: InsertHeaderMode) -> (r: Self)
        ensures
            r.spec_inner() == inner,
            r.spec_name() == header_name@,
            r.spec_mode() == mode,
            r.spec_make() == make,
    {
        SetRequestHeader { inner, header_name, make, mode }
    }

    pub fn inner(&self) -> (r: &S)
        ensures
            *r == self.spec_inner(),
    {
        &self.inner
    }

    /// The wrapped transport, to hand it the request once the header is set.
    pub fn inner_mut(&mut self) -> (r: &mut S)
        ensures
            *r == old(self).spec_inner(),
            *final(r) == final(self).spec_inner(),
            final(self).spec_name() == old(self).spec_name(),
            final(self).spec_mode() == old(self).spec_mode(),
            final(self).spec_make() == old(self).spec_make(),
    {
        &mut self.inner
    }

    /// Sets the header on a request as the policy says; done once per request, before
    /// the request goes to the wrapped transport.
    pub fn set_header<B>(&mut self, req: &mut Request<B>)
        where
            M: MakeHeaderValue<Request<B>>,
        ensures
            same_but_headers(*final(req), *old(req)),
            merged_by_some_value(
                old(self).spec_mode(),
                old(req).spec_headers()@,
                old(self).spec_name(),
                final(req).spec_headers()@,
            ),
            old(self).spec_mode() == InsertHeaderMode::IfNotPresent && values_in(
                old(req).spec_headers()@,
                old(self).spec_name(),
            ).len() > 0 ==> final(req).spec_headers()@ == old(req).spec_headers()@
                && final(self).spec_make() == old(self).spec_make(),
            old(self).spec_make().fixed_output() is Some ==> final(req).spec_headers()@ == merged(
                old(self).spec_mode(),
                old(req).spec_headers()@,
                old(self).spec_name(),
                old(self).spec_make().fixed_output()->0,
            ),
            final(self).spec_inner() == old(self).spec_inner(),
            final(self).spec_name() == old(self).spec_name(),
            final(self).spec_mode() == old(self).spec_mode(),
    {
        self.mode.apply(&self.header_name, req, &mut self.make);
    }
}

} // verus!
