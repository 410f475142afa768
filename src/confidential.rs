//! A container that holds one value behind a confidentiality boundary:
//! the whole value is written at once and read back only through `get`.
use vstd::prelude::*;

verus! {

/// Why a confidential value could not be read.
#[derive(Clone, Copy, Debug, PartialEq, Eq, Structural)]
pub enum AccessError {
    /// No value has ever been stored.
    NotInitialized,
    /// The confidential-compute backend refused the access.
    DecryptionFailed,
}

/// Owns at most one value of `T`; `None` in the view until the first `set`.
pub struct Confidential<T> {
    value: Option<T>,
}

impl<T> View for Confidential<T> {
    type V = Option<T>;

    closed spec fn view(&self) -> Option<T> {
        self.value
    }
}

impl<T> Confidential<T> {
    /// A container that holds nothing yet.
    pub fn empty() -> (r: Self)
        ensures
            r@ == None::<T>,
    {
        Confidential { value: None }
    }

    /// A container that holds `v`.
    pub fn sealed(v: T) -> (r: Self)
        ensures
            r@ == Some(v),
    {
        Confidential { value: Some(v) }
    }

    /// Replaces the held value by `v`, whatever was there.
    pub fn set(&mut self, v: T)
        ensures
            final(self)@ == Some(v),
    {
        self.value = Some(v);
    }

    /// The held value, or `NotInitialized` when none was ever set.
    pub fn get(&self) -> (r: Result<&T, AccessError>)
        ensures
            match self@ {
                Some(v) => r == Ok::<&T, AccessError>(&v),
                None => r == Err::<&T, AccessError>(AccessError::NotInitialized),
            },
    {
        match &self.value {
            Some(v) => Ok(v),
            None => Err(AccessError::NotInitialized),
        }
    }

    /// Moves the held value out, leaving the container empty.
    pub fn take(&mut self) -> (r: Result<T, AccessError>)
        ensures
            final(self)@ == None::<T>,
            match old(self)@ {
                Some(v) => r == Ok::<T, AccessError>(v),
                None => r == Err::<T, AccessError>(AccessError::NotInitialized),
            },
    {
        match self.value.take() {
            Some(v) => Ok(v),
            None => Err(AccessError::NotInitialized),
        }
    }
}

} // verus!
