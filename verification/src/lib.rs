//! A minimal artificial neuron: a unit that gathers weighted scalar inputs and
//! squashes their weighted sum into its output.
//!
//! Scalars are IEEE 754 binary64 values carried as their bit patterns (`u64`).
//! The library stores and routes them; it never computes with them itself. The
//! few arithmetic operations it needs (product, sum, hyperbolic tangent, text
//! rendering) are handed in by the caller as functions, and every contract here
//! is stated in terms of what those functions return.

pub mod dot;
pub mod ident;
pub mod neuron;
pub mod node;
pub mod text;

pub use dot::dot;
pub use ident::IdAllocator;
pub use neuron::{InputLine, Neuron};
pub use node::Node;
pub use text::vec_to_str;
