//! Report and toggle the Num Lock indicator on a Linux host.
//!
//! The library holds the decision logic: parsing the LED brightness
//! value, selecting the numlock LED among the entries of the LED class
//! directory, deciding whether a key press is needed for a requested
//! action, and confirming by bounded polling that the press took
//! effect. Reading the filesystem and emitting the synthetic key event
//! are left to the surrounding program, which feeds their results in as
//! plain values.

mod control;
mod led;
mod scan;

pub use control::apply_outcome;
pub use control::confirm_outcome;
pub use control::lemma_confirm_detects_change;
pub use control::lemma_confirm_exhausts;
pub use control::lemma_poll_step_agrees_with_confirm;
pub use control::lemma_set_on_when_on_is_noop;
pub use control::lemma_toggle_always_presses;
pub use control::should_press;
pub use control::spec_apply;
pub use control::spec_confirm;
pub use control::spec_readings_view;
pub use control::spec_should_press;
pub use control::Action;
pub use control::PollVerdict;
pub use control::Poller;
pub use control::POLL_BUDGET;
pub use control::POLL_INTERVAL_MICROS;
pub use control::SETTLE_MICROS;

pub use led::led_state_from_bytes;
pub use led::lemma_toggled_involutive;
pub use led::BYTE_DIGIT_ONE;
pub use led::BYTE_DIGIT_ZERO;
pub use led::BYTE_NEWLINE;
pub use led::parse_led_bytes;
pub use led::spec_led_state;
pub use led::spec_toggled;
pub use led::Error;
pub use led::Res;
pub use led::State;

pub use scan::brightness_path_of;
pub use scan::brightness_suffix;
pub use scan::contains_numlock;
pub use scan::is_numlock_name;
pub use scan::lemma_scan_finds_first;
pub use scan::match_at;
pub use scan::numlock_pattern;
pub use scan::qualifies;
pub use scan::scan_entries;
pub use scan::spec_brightness_path;
pub use scan::spec_scan;
pub use scan::spec_scan_from;
pub use scan::Discovery;
pub use scan::ScanEntry;
pub use scan::ScanOutcome;
pub use scan::ScanPolicy;
pub use scan::NUMLOCK_PATTERN_LEN;
