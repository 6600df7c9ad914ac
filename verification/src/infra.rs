//! Commands and queries: the argument kinds they take, and the resolver that
//! builds a domain's dependencies from its configuration.
use crate::config::{ConfigType, Register};
use crate::status::GrpcStatus;
use std::marker::PhantomData;
use vstd::prelude::*;

verus! {

/// The arguments of a command or query, and what it answers.
pub trait Args {
    type Output;
}

/// Reading a `T` from `D`.
pub struct Get<D, T, E = GrpcStatus<'static>> {
    from: D,
    _data: (PhantomData<T>, PhantomData<E>),
}

impl<T, E, D> Get<D, T, E> {
    pub closed spec fn spec_dst(&self) -> D {
        self.from
    }

    pub fn new(from: D) -> (r: Self)
        ensures
            r.spec_dst() == from,
    {
        Get { from, _data: (PhantomData, PhantomData) }
    }

    /// Where the value is read from.
    pub fn dst(&self) -> (r: &D)
        ensures
            *r == self.spec_dst(),
    {
        &self.from
    }
}

impl<T, E, D> Args for Get<D, T, E> {
    type Output = Result<T, E>;
}

/// Writing into `D` (the `Set` argument kind of commands).
pub struct SetTo<D, E = GrpcStatus<'static>> {
    into: D,
    _data: PhantomData<E>,
}

impl<E, D> SetTo<D, E> {
    pub closed spec fn spec_dst(&self) -> D {
        self.into
    }

    pub fn new(into: D) -> (r: Self)
        ensures
            r.spec_dst() == into,
    {
        SetTo { into, _data: PhantomData }
    }

    /// Where the value is written.
    pub fn dst(&self) -> (r: &D)
        ensures
            *r == self.spec_dst(),
    {
        &self.into
    }
}

impl<E, D> Args for SetTo<D, E> {
    type Output = Result<(), E>;
}

/// Deleting from `D`.
pub struct Del<D, E = GrpcStatus<'static>> {
    dst: D,
    _data: PhantomData<E>,
}

impl<E, D> Del<D, E> {
    pub closed spec fn spec_dst(&self) -> D {
        self.dst
    }

    pub fn new(dst: D) -> (r: Self)
        ensures
            r.spec_dst() == dst,
    {
        Del { dst, _data: PhantomData }
    }

    /// Where the value is deleted.
    pub fn dst(&self) -> (r: &D)
        ensures
            *r == self.spec_dst(),
    {
        &self.dst
    }
}

impl<E, D> Args for Del<D, E> {
    type Output = Result<(), E>;
}

/// Putting into `D`.
pub struct Put<D, E = GrpcStatus<'static>> {
    dst: D,
    _data: PhantomData<E>,
}

impl<E, D> Put<D, E> {
    pub closed spec fn spec_dst(&self) -> D {
        self.dst
    }

    pub fn new(dst: D) -> (r: Self)
        ensures
            r.spec_dst() == dst,
    {
        Put { dst, _data: PhantomData }
    }

    /// Where the value is put.
    pub fn dst(&self) -> (r: &D)
        ensures
            *r == self.spec_dst(),
    {
        &self.dst
    }
}

impl<E, D> Args for Put<D, E> {
    type Output = Result<(), E>;
}

/// The kind of API a resolver serves.
#[derive(Clone, Copy, Debug, PartialEq, Eq, Structural)]
pub enum Target {
    REST,
    GRPC,
}

/// Builds a domain's dependencies from its configuration.
pub trait Resolver {
    /// The kind of API served.
    const TARGET: Target;
    /// The domain served.
    const DOMAIN: &'static str;
    /// The configuration the resolver holds.
    type Config: ConfigType;

    /// The configuration the resolver holds.
    spec fn spec_conf(&self) -> Self::Config;

    /// The configuration the resolver holds.
    fn conf(&self) -> (r: &Self::Config)
        ensures
            *r == self.spec_conf(),
    ;

    /// Builds a value with the register from the resolver's configuration.
    fn resolve<T, F: Fn(&Self::Config) -> T>(&self, register: &Register<Self::Config, T, F>) -> (r: T)
        requires
            call_requires(register.maker(), (&self.spec_conf(),)),
        ensures
            call_ensures(register.maker(), (&self.spec_conf(),), r),
    {
        register.register(self.conf())
    }
}

} // verus!
