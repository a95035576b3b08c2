//! Mock generation for implementation blocks.
//!
//! Given the source text of `impl Capability for Target { .. }`, [`mock`]
//! produces the source text of a mock container for that capability set:
//! a type with one call state per method, a builder to stub the result of
//! a given call, and an implementation of the capability set that returns
//! the stub of the current call, falls back to a real implementation, or
//! reports the call as unmocked. The module [`runtime`] holds the same
//! call state, builder and dispatch as a library, with their contracts.

use vstd::prelude::*;

pub mod extract;
pub mod laws;
pub mod model;
pub mod reading;
pub mod runtime;
pub mod synth;
pub mod syntax;
pub mod text;

verus! {

/// What [`mock`] yields for a source text.
pub open spec fn mock_result(input: Seq<char>) -> Result<Seq<char>, model::Failure> {
    match reading::reading(input) {
        Err(e) => Err(e),
        Ok(declaration) => synth::generation(declaration),
    }
}

/// Generates the mock for the implementation block written in `input`.
/// The attribute's own arguments, `attr`, have no part in it.
///
/// Fails where `input` does not parse as one item, where the item is not
/// an implementation of a capability set, where one of its methods takes
/// no `self`, and where a parameter of one of its methods is bound by a
/// pattern.
pub fn mock(attr: &str, input: &str) -> (r: Result<String, model::MockError>)
    ensures
        match r {
            Ok(text) => mock_result(input@) == Ok::<Seq<char>, model::Failure>(text@),
            Err(e) => mock_result(input@) == Err::<Seq<char>, model::Failure>(e@),
        },
{
    match reading::read_declaration(input) {
        Err(e) => Err(e),
        Ok(declaration) => synth::generate(&declaration),
    }
}

} // verus!
