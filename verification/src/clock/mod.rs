mod pings;
mod window;

pub use pings::{lemma_answered_ping_is_settled, LinkChange, PingLedger, BURST_COUNT};
pub use window::{keep_last, lemma_window_is_recent_suffix, lemma_window_keeps_most_recent, SampleWindow};
