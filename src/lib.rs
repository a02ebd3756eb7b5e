//! Busy-wait synchronization primitives: a swap-based spin lock, a lock that
//! owns its protected value, a reader-writer lock, an owner-reentrant lock and
//! small atomic scalars built on the spin lock.
//!
//! Every primitive is modelled as a state machine over its bookkeeping
//! fields. Each operation states, over that model, exactly how it moves the
//! state, so that the classic lock invariants (mutual exclusion, reader-writer
//! exclusion, balanced reentrancy) are proved rather than assumed.

pub mod spin_mutex;
pub mod mutex;
pub mod read_write;
pub mod content_mutex;
pub mod mutex_bool;
pub mod atom_value;
pub mod atom_counter;

pub use atom_counter::AtomCounter;
pub use atom_value::AtomValue;
pub use content_mutex::ContentMutex;
pub use mutex_bool::Bool;
pub use read_write::ReadWriteMutex;
pub use spin_mutex::SpinMutex;
