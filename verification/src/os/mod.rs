//! Types for registering handles with an operating system backed readiness
//! event queue: interests, registration options, signal sets and the
//! conversions of the system selector.

pub mod epoll;
pub mod interests;
pub mod option;
pub mod signals;

pub use self::interests::Interests;
pub use self::option::RegisterOption;
pub use self::signals::{Signal, SignalSet, SignalSetIter, ToSignalSet};
