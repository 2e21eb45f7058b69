//! A verified model of a native popup-menu toolkit binding.
//!
//! The library owns the bookkeeping half of a C-style menu API: it turns
//! semantic item descriptions into the exact flag words, payloads and
//! wide-character strings that the native append call takes, it interprets
//! the ambiguous return conventions of the native calls (null handles,
//! zero returns disambiguated by the last platform error), and it tracks
//! handle ownership so that a menu handle is destroyed exactly once and
//! never after its ownership was transferred to a parent menu.
//!
//! The native calls themselves are performed by an unverified shell around
//! this library: every function here is a total, verified function from
//! plain values (handles as integers, return codes, error codes) to plain
//! values.

pub mod bar;
pub mod error;
pub mod flags;
pub mod menu;
pub mod model;
pub mod popup;
pub mod wide;
