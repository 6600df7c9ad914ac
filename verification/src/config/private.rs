use vstd::prelude::*;

verus! {

/// Keeps other crates from implementing `ConfigType`.
pub trait Sealed {}

} // verus!
