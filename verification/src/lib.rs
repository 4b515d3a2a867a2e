//! A minimal reader for the JVM class-file binary format.
//!
//! The library decodes just enough of a class file to classify the compiled
//! type: the constant pool (with the double-slot rule for 8-byte constants),
//! the access-flags word, and the two class-name indices, together with the
//! two-step name resolution and the bitmask predicates over the flags.
//! Every executable function's result is pinned to a spec-level model of the
//! format in `model`, and the properties the format guarantees are proved in
//! `laws`.

pub mod class;
pub mod error;
pub mod laws;
pub mod model;
pub mod pool;

pub use crate::class::MinimalJavaClass;
pub use crate::error::ClassError;
pub use crate::pool::resolve_class_name;
pub use crate::pool::ConstantPool;
pub use crate::pool::ConstantPoolItem;
