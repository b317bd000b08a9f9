//! I/O ports: a port is a 16-bit number, together with the type of the values that move
//! through it and whether it may be read, written, or both.
use vstd::prelude::*;
use core::marker::PhantomData;

verus! {

/// Access that allows reading.
pub trait PortReadAccess {}

/// Access that allows writing.
pub trait PortWriteAccess {}

/// A port that may only be read.
pub struct ReadOnlyAccess(());

impl PortReadAccess for ReadOnlyAccess {}

/// A port that may only be written.
pub struct WriteOnlyAccess(());

impl PortWriteAccess for WriteOnlyAccess {}

/// A port that may be read and written.
pub struct ReadWriteAccess(());

impl PortReadAccess for ReadWriteAccess {}

impl PortWriteAccess for ReadWriteAccess {}

/// A type of value that a port can deliver (the `in` instructions move 8, 16 or 32 bits).
pub trait PortRead {}

/// A type of value that a port can take (the `out` instructions move 8, 16 or 32 bits).
pub trait PortWrite {}

impl PortRead for u8 {}

impl PortRead for u16 {}

impl PortRead for u32 {}

impl PortWrite for u8 {}

impl PortWrite for u16 {}

impl PortWrite for u32 {}

/// Port number `port`, moving values of type `T` with access `A`.
pub struct PortGeneric<T, A> {
    pub port: u16,
    pub phantom: PhantomData<(T, A)>,
}

/// A port that may be read and written.
pub type Port<T> = PortGeneric<T, ReadWriteAccess>;

/// A port that may only be read.
pub type PortReadOnly<T> = PortGeneric<T, ReadOnlyAccess>;

impl<T, A> PortGeneric<T, A> {
    /// The port numbered `port`.
    pub fn new(port: u16) -> (r: PortGeneric<T, A>)
        ensures
            r.port == port,
    {
        PortGeneric { port, phantom: PhantomData }
    }
}

} // verus!
