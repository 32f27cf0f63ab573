use vstd::prelude::*;

verus! {

/// A message that carries its own correlation identifier, agreed with the
/// remote peer out of band. In multiplex mode the dispatcher extracts this
/// identifier from each inbound item to store it under the key its waiting
/// caller will ask for.
pub trait MessageWithId {
    type Id;

    /// The identifier embedded in this message.
    spec fn spec_id(&self) -> Self::Id;

    fn id(&self) -> (r: Self::Id)
        ensures
            r == self.spec_id(),
    ;
}

impl<T> MessageWithId for (u8, T) {
    type Id = u8;

    open spec fn spec_id(&self) -> u8 {
        self.0
    }

    fn id(&self) -> (r: u8) {
        self.0
    }
}

impl<T> MessageWithId for (u16, T) {
    type Id = u16;

    open spec fn spec_id(&self) -> u16 {
        self.0
    }

    fn id(&self) -> (r: u16) {
        self.0
    }
}

impl<T> MessageWithId for (u32, T) {
    type Id = u32;

    open spec fn spec_id(&self) -> u32 {
        self.0
    }

    fn id(&self) -> (r: u32) {
        self.0
    }
}

impl<T> MessageWithId for (u64, T) {
    type Id = u64;

    open spec fn spec_id(&self) -> u64 {
        self.0
    }

    fn id(&self) -> (r: u64) {
        self.0
    }
}

impl<T> MessageWithId for (usize, T) {
    type Id = usize;

    open spec fn spec_id(&self) -> usize {
        self.0
    }

    fn id(&self) -> (r: usize) {
        self.0
    }
}

impl<T> MessageWithId for (i8, T) {
    type Id = i8;

    open spec fn spec_id(&self) -> i8 {
        self.0
    }

    fn id(&self) -> (r: i8) {
        self.0
    }
}

impl<T> MessageWithId for (i16, T) {
    type Id = i16;

    open spec fn spec_id(&self) -> i16 {
        self.0
    }

    fn id(&self) -> (r: i16) {
        self.0
    }
}

impl<T> MessageWithId for (i32, T) {
    type Id = i32;

    open spec fn spec_id(&self) -> i32 {
        self.0
    }

    fn id(&self) -> (r: i32) {
        self.0
    }
}

impl<T> MessageWithId for (i64, T) {
    type Id = i64;

    open spec fn spec_id(&self) -> i64 {
        self.0
    }

    fn id(&self) -> (r: i64) {
        self.0
    }
}

impl<T> MessageWithId for (isize, T) {
    type Id = isize;

    open spec fn spec_id(&self) -> isize {
        self.0
    }

    fn id(&self) -> (r: isize) {
        self.0
    }
}

} // verus!
