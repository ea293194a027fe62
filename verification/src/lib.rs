//! Verified core of a PTY session manager: a registry of live sessions
//! keyed by integer handles, the pull-mode operation protocol
//! (spawn/write/read/resize/kill/exitstatus), and the push-mode pump
//! state machine that relays backend output to an event channel.
//!
//! The terminal backend itself (opening a PTY, spawning a child process,
//! raw byte I/O) is an external collaborator: an unverified driver performs
//! those calls and feeds their outcomes to the verified functions here.

mod codec;
mod ops;
mod pump;
mod registry;
mod session;

pub use pump::feeds;
pub use pump::lemma_no_publish_after_termination;
pub use pump::lemma_terminated_is_final;
pub use pump::next_phase;
pub use pump::publishes;
pub use pump::run_phases;
pub use pump::terminating_event;
pub use pump::Payload;
pub use pump::Pump;
pub use pump::PumpAction;
pub use pump::PumpConfig;
pub use pump::PumpEvent;
pub use pump::PumpPhase;

pub use ops::backend_result;
pub use ops::read_result;
pub use ops::PtyError;
pub use ops::READ_BUFFER_LEN;

pub use registry::lemma_handle_uniqueness;
pub use registry::lemma_unknown_handle_absent;
pub use registry::registration;
pub use registry::registration_run;
pub use registry::Registry;
pub use session::guard_of;
pub use session::lemma_distinct_ops_do_not_contend;
pub use session::required_guard;
pub use session::PullOp;
pub use session::SubResource;

pub use codec::decode_chunk;
pub use codec::encode_input;
pub use codec::lossy_decode;
