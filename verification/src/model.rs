//! Immutable descriptor of a language model: its name and the absolute
//! context-window capacity, in tokens.

use vstd::prelude::*;

verus! {

/// A language model's identity and context-window capacity. Pure data,
/// immutable after construction.
#[derive(Debug, PartialEq)]
pub struct Model {
    pub name: String,
    pub max_tokens: u32,
}

impl Model {
    pub fn new(name: String, max_tokens: u32) -> (r: Self)
        ensures
            r.name == name,
            r.max_tokens == max_tokens,
    {
        Self { name, max_tokens }
    }

    pub fn name(&self) -> (r: &str)
        ensures
            r@ == self.name@,
    {
        self.name.as_str()
    }

    pub fn max_tokens(&self) -> (r: u32)
        ensures
            r == self.max_tokens,
    {
        self.max_tokens
    }
}

} // verus!
