//! Values, the references that carry them, and the store that keeps them.
//!
//! The traits of this module are for a node's own types to implement. Their methods promise
//! nothing: a contract that depends on one of them speaks of what that method returned, through
//! `call_ensures` or through a relation that the implementation may define.
use crate::error::Error;
use core::fmt::Debug;
use core::marker::PhantomData;
use vstd::prelude::*;

verus! {

/// A value that is found by its key.
pub trait KeyVal: Clone {
    type Key: Clone + Debug;
}

/// A node of the network: a value under its own key, with the address it listens on.
pub trait Peer: KeyVal {
    type Address: Clone;
}

/// The sendable form of a reference, which gives the reference back on the other side.
pub trait SToRef<T>: Sized {
    fn to_ref(self) -> T;
}

/// Something that can be turned into a form that crosses threads.
pub trait SRef: Sized {
    type Send: SToRef<Self>;

    fn get_sendable(&self) -> Self::Send;
}

/// A reference to a `T`: the value itself, or shared ownership of it.
pub trait Ref<T>: SRef + Clone {
    fn new(t: T) -> Self;

    fn borrow(&self) -> &T;
}

/// A reference as it stands in a protocol message.
#[derive(Debug)]
pub struct SerRef<V, R>(pub R, pub PhantomData<V>);

impl<V, R> SerRef<V, R> {
    pub fn new(r: R) -> (s: SerRef<V, R>)
        ensures
            s.0 == r,
    {
        SerRef(r, PhantomData)
    }
}

/// How long a store may keep a value, in nanoseconds.
#[derive(Clone, Copy, Debug, PartialEq, Eq)]
pub struct CachePolicy(pub u128);

/// The place where a node keeps its values.
pub trait KVStore<V: KeyVal>: Sized {
    /// `after` is a state that `add_val` may leave, called on `before` with `v` and `policy`.
    ///
    /// Every state is, unless the implementation narrows it down.
    open spec fn added(before: Self, v: V, policy: Option<CachePolicy>, after: Self) -> bool {
        true
    }

    fn add_val(&mut self, v: V, policy: Option<CachePolicy>)
        ensures
            Self::added(*old(self), v, policy, *final(self)),
    ;

    fn get_val(&self, key: &V::Key) -> Option<V>;
}

/// Something that opens a store. It may change as it does, so that it can tell a second call from
/// the first.
pub trait OpenStore<S>: Sized {
    /// Can `open_store` be called?
    ///
    /// It always can, unless the implementation narrows it down.
    open spec fn can_open(&self) -> bool {
        true
    }

    /// `after` and `r` are what one call of `open_store` on `before` may leave and give.
    ///
    /// Everything is, unless the implementation narrows it down.
    open spec fn opened(before: Self, after: Self, r: Result<S, Error>) -> bool {
        true
    }

    fn open_store(&mut self) -> (r: Result<S, Error>)
        requires
            old(self).can_open(),
        ensures
            Self::opened(*old(self), *final(self), r),
    ;
}

impl<S, F: Fn() -> Result<S, Error>> OpenStore<S> for F {
    open spec fn can_open(&self) -> bool {
        call_requires(*self, ())
    }

    open spec fn opened(before: Self, after: Self, r: Result<S, Error>) -> bool {
        &&& after == before
        &&& call_ensures(before, (), r)
    }

    fn open_store(&mut self) -> (r: Result<S, Error>) {
        (*self)()
    }
}

/// `s` is a form that `get_sendable` may give for `r`.
pub open spec fn sendable_of<R: SRef>(r: R, s: R::Send) -> bool {
    call_ensures(R::get_sendable, (&r,), s)
}

/// `r` is a reference that `to_ref` may give for `s`.
pub open spec fn ref_of<R: SRef>(s: R::Send, r: R) -> bool {
    call_ensures(<R::Send as SToRef<R>>::to_ref, (s,), r)
}

/// `ss` holds a sendable form of each of `rs`, in order.
pub open spec fn all_sendable_of<R: SRef>(rs: Seq<R>, ss: Seq<R::Send>) -> bool {
    &&& rs.len() == ss.len()
    &&& forall|i: int| 0 <= i < rs.len() ==> sendable_of(#[trigger] rs[i], ss[i])
}

/// `rs` holds a reference given back by each of `ss`, in order.
pub open spec fn all_ref_of<R: SRef>(ss: Seq<R::Send>, rs: Seq<R>) -> bool {
    &&& ss.len() == rs.len()
    &&& forall|i: int| 0 <= i < ss.len() ==> ref_of::<R>(#[trigger] ss[i], rs[i])
}

/// `r` is a reference that `Ref::new` may make of `t`.
pub open spec fn made_from<T, R: Ref<T>>(t: T, r: R) -> bool {
    call_ensures(<R as Ref<T>>::new, (t,), r)
}

/// `t` is a value that `r` may lend.
pub open spec fn lends<T, R: Ref<T>>(r: R, t: T) -> bool {
    call_ensures(<R as Ref<T>>::borrow, (&r,), &t)
}

/// `o` is an answer that `store` may give for `key`.
pub open spec fn answers<V: KeyVal, S: KVStore<V>>(store: S, key: V::Key, o: Option<V>) -> bool {
    call_ensures(S::get_val, (&store, &key), o)
}

/// The sendable form of each reference, in order.
pub fn get_sendables<R: SRef>(rs: &Vec<R>) -> (ss: Vec<R::Send>)
    ensures
        all_sendable_of(rs@, ss@),
{
    let mut ss: Vec<R::Send> = Vec::new();
    for r in it: rs.iter()
        invariant
            it.seq().len() == rs@.len(),
            forall|i: int| 0 <= i < rs@.len() ==> *(#[trigger] it.seq()[i]) == rs@[i],
            ss@.len() == it.index(),
            forall|i: int| 0 <= i < ss@.len() ==> sendable_of(#[trigger] rs@[i], ss@[i]),
    {
        ss.push(r.get_sendable());
    }
    ss
}

/// The reference that each sendable form gives back, in order.
pub fn to_refs<R: SRef>(ss: Vec<R::Send>) -> (rs: Vec<R>)
    ensures
        all_ref_of(ss@, rs@),
{
    let mut rs: Vec<R> = Vec::new();
    let ghost all = ss@;
    for s in it: ss
        invariant
            it.seq() == all,
            rs@.len() == it.index(),
            forall|i: int| 0 <= i < rs@.len() ==> ref_of::<R>(#[trigger] all[i], rs@[i]),
    {
        rs.push(s.to_ref());
    }
    rs
}

} // verus!
