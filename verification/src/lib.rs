//! A type-indexed value container with dependency injection by type.
//!
//! The container stores at most one value per type key. A callable's
//! parameters are resolved from the container by type and the callable is
//! invoked with them. Two access disciplines are built in: `Data<T>` gives
//! shared, read-only access to a bound value, and `DataMut<T>` gives
//! exclusive, mutable access to a value bound through `DataMutStorage<T>`.

pub mod data;
pub mod dispatch;
pub mod laws;
pub mod resolve;
pub mod store;
pub mod value;

pub use data::Data;
pub use data::DataMut;
pub use data::DataMutStorage;
pub use dispatch::Callable;
pub use resolve::FromTypeMap;
pub use store::Access;
pub use store::Error;
pub use store::Slot;
pub use store::TypeKey;
pub use store::TypeMap;
pub use value::Storable;
pub use value::Tag;
pub use value::Value;
