//! Structural transformer for sum-type declarations: given a declaration and a
//! list of extra named fields, every variant gains those fields, and each
//! injected field gets a uniform accessor triplet (borrow, mutable borrow,
//! consume) dispatching over all variants.

pub mod ast;
pub mod laws;
pub mod semantics;
pub mod transform;
