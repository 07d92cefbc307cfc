use vstd::prelude::*;

verus! {

/// Marker that selects the context extractor built from a closure that takes
/// no arguments.
pub struct NoArgMarker(std::marker::PhantomData<()>);

/// Marker that selects the context extractor built from a closure that takes
/// the request and the application data.
pub struct SingleArgMarker(std::marker::PhantomData<()>);

} // verus!
