//! Classification of user-agent strings into a canonical, display-ready
//! `Browser` record.
//!
//! A pattern-matching extraction engine (the `ua_parser` crate, compiled
//! once from a rule list) yields up to three partial matches for a
//! user-agent string: browser, operating system and device. This library
//! normalizes those matches: it assembles dotted version strings from
//! optional numeric components with a strict left-to-right cascade, resolves
//! a single device identifier with build-tag stripping and a longest-string
//! tie-break, and always returns a record whose operating system is
//! populated, also when no match occurred.

pub mod basic;
pub mod browser;
pub mod device;
pub mod engine;
pub mod version;

pub use basic::{Basic, Referrer, UserAgent};
pub use browser::{
    browser_from_matches, browser_of_matches, Browser, BrowserCapture, BrowserMatch, DeviceMatch,
    Os, OsCapture, OsMatch,
};
pub use device::{
    lemma_resolve_device_strips_marker, lemma_strip_build_idempotent, lemma_strip_build_no_marker,
    lemma_strip_build_unchanged, resolve_device, spec_resolve_device, spec_strip_build,
    strip_build,
};
pub use engine::{convert_from_user_agent, ruleset_compiles, ruleset_parses, Engine, EngineError};
pub use version::{
    decimal_string, format_version, lemma_decimal_canonical, lemma_version_truncates_at_gap,
    parse_decimal, spec_decimal, spec_version,
};
