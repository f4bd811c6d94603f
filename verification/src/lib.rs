//! Code generation for the `Partial` derive: the field and struct models that the
//! attribute parser fills, their validation rules, and the rendering of the partial
//! struct together with its two `Partial` impls as Rust source text.

pub mod field_receiver;
pub mod text;
pub mod impl_partial;
pub mod generics;
pub mod derive_receiver;
pub mod laws;

pub use derive_receiver::{expand_derive_partial, DeriveReceiver, ExpandError, StructAttr};
pub use field_receiver::{FieldError, FieldReceiver};
pub use impl_partial::{ImplPartial, SplitGenerics};
