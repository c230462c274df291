//! A reader-writer lock whose blocking and wake-ups are driven by a
//! cooperative scheduler instead of the operating system.
pub mod execution;
pub mod model;
pub mod rwlock;
pub mod task;

pub use execution::Execution;
pub use rwlock::{RwLock, RwLockReadGuard, RwLockWriteGuard, WouldBlock};
pub use task::{TaskId, TaskSet};
