//! Lazily-initialized singleton cells.
//!
//! A [`Singleton`] holds zero-or-one value of type `T`, constructed on first
//! access and handed out by reference afterwards. A [`PreemptiveSingleton`]
//! additionally records the identity of the thread that performed the
//! initialization and denies access to every other thread. A [`Registry`]
//! collects destructor entries in registration order so that a process-exit
//! hook can release every live allocation exactly once.

pub mod preemptive;
pub mod registry;
pub mod singleton;

pub use preemptive::PreemptiveInner;
pub use preemptive::PreemptiveSingleton;
pub use registry::Registry;
pub use registry::RegistryView;
pub use singleton::Singleton;
pub use singleton::SingletonState;
pub use singleton::SingletonView;
