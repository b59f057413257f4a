//! Coordination between controller and worker threads: a shared first-in,
//! first-out queue of work, and a flag by which one controller tells any
//! number of workers to stop.
//!
//! What the handles share is described by two plain types, [`QueueState`] and
//! [`FlagState`], whose operations are specified exactly over a sequence and a
//! boolean. A handle locks the state it shares, performs one such operation
//! and unlocks. Between two calls on a handle any other handle may have
//! changed the state, so the contracts of the handles say which state they
//! refer to, and the contracts of the states say what each operation does.

pub mod flag_state;
pub mod mutex;
pub mod queue_state;
pub mod sync_flag;
pub mod wait;
pub mod work_queue;

pub use flag_state::FlagState;
pub use queue_state::QueueState;
pub use sync_flag::new_syncflag;
pub use sync_flag::SyncFlagRx;
pub use sync_flag::SyncFlagTx;
pub use wait::WaitState;
pub use work_queue::WorkQueue;
