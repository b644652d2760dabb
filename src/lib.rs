//! Thread lifecycle rules for a small real-time OS: builder configuration,
//! the one-shot thread body, shared teardown of the OS thread object, thread
//! identity and names, sleep requests, and the notification-flag protocol.

mod body;
mod builder;
mod flags;
mod identity;
mod sleep;
mod teardown;

pub use body::ThreadBody;
pub use builder::{Builder, NulError, ThreadConfig, MIN_STACK_SIZE};
pub use flags::{
    decode_flags, lemma_status_word_round_trip, wait_options, Status, WaitMode, FLAG_ERROR, FLAG_NO_CLEAR, FLAG_WAIT_ALL,
    FLAG_WAIT_ANY, STATUS_ERROR, STATUS_ERROR_ISR, STATUS_ERROR_NO_MEMORY,
    STATUS_ERROR_PARAMETER, STATUS_ERROR_RESOURCE, STATUS_ERROR_TIMEOUT, STATUS_OK,
};
pub use identity::{is_finished, thread_name, ThreadId};
pub use sleep::{sleep_delay, Delay, MAX_SLEEP_NANOS};
pub use teardown::{
    lemma_freed_once_in_either_order, release_share, releases_share, Owner, Release, Teardown, SPAWN_SHARES,
    THREAD_STATE_RUNNING, THREAD_STATE_STARTING, THREAD_STATE_STOPPED, THREAD_STATE_STOPPING,
};
