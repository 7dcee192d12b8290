//! Phantom-typed identifier and code wrappers: each entity can be given its
//! own identifier type without repeating the wrapper.

use core::marker::PhantomData;
use vstd::prelude::*;

verus! {

/// A numeric identifier carrying a phantom entity tag, so identifiers of
/// different entities cannot be mixed up.
#[derive(Debug)]
pub struct Id<T> {
    id: u64,
    _phantom: PhantomData<T>,
}

impl<T> Id<T> {
    /// The number inside.
    pub closed spec fn spec_id(&self) -> u64 {
        self.id
    }

    /// An identifier with the given number.
    pub fn new(id: u64) -> (r: Id<T>)
        ensures
            r.spec_id() == id,
    {
        Id { id, _phantom: PhantomData }
    }

    /// The number inside.
    pub fn get(&self) -> (r: u64)
        ensures
            r == self.spec_id(),
    {
        self.id
    }
}

/// A textual code carrying a phantom entity tag, so codes of different
/// entities cannot be mixed up.
#[derive(Debug)]
pub struct Code<T> {
    code: String,
    _phantom: PhantomData<T>,
}

impl<T> Code<T> {
    /// The text inside.
    pub closed spec fn spec_code(&self) -> Seq<char> {
        self.code@
    }

    /// A code with the given text.
    pub fn new(id: String) -> (r: Code<T>)
        ensures
            r.spec_code() == id@,
    {
        Code { code: id, _phantom: PhantomData }
    }

    /// An owned copy of the text inside.
    pub fn get(&self) -> (r: String)
        ensures
            r@ == self.spec_code(),
    {
        self.code.clone()
    }
}

} // verus!
