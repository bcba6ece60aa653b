//! Watches a remote notification feed: keeps a durable watermark, picks the
//! items modified after it, and drives one poll cycle at a time.
mod cycle;
mod instant;
mod item;
mod watermark;

pub use cycle::{
    classify, fresh_items, freshness_of, item_freshness, lemma_failed_cycle_keeps_watermark,
    lemma_fresh_exactly, lemma_second_cycle_quiet, malformed_items, select_fresh, stands_as,
    watermark_after, Engine, Freshness, Phase, Selection, POLL_INTERVAL_SECS,
};
pub use instant::{
    parsed_instant, rfc3339_instant, rfc3339_text, Instant, TEXT_MAX_SECS, TEXT_MIN_SECS,
    UTC_MAX_SECS, UTC_MIN_SECS,
};
pub use item::{wants_open, Notification, Reason, Repository, Subject, OPEN_ACTION};
pub use watermark::{
    decode_watermark, decoded, encode_watermark, load_watermark, stored_instant, trim, trim_end, trim_start,
    trimmed, is_white_space,
    watermark_from,
};
