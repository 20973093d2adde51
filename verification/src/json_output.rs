//! Line-delimited progress events for external tools.
use vstd::prelude::*;
use vstd::string::StringExecFns;

verus! {

/// One progress event.
#[derive(Debug, Clone)]
pub struct ProgressEvent {
    pub event: String,
    pub current: usize,
    pub total: usize,
    pub title: String,
    pub year: Option<u16>,
    pub phase: Option<String>,
    pub downloads: Option<usize>,
    pub conversions: Option<usize>,
    pub discovered: Option<usize>,
    pub success: Option<bool>,
    pub error: Option<String>,
}

impl ProgressEvent {
    /// An event of the given kind for item `current` of `total`, with the
    /// title and year; the optional details are unset.
    pub fn new(event: &str, current: usize, total: usize, title: String, year: Option<u16>) -> (r:
        Self)
        ensures
            r.event@ == event@,
            r.current == current,
            r.total == total,
            r.title == title,
            r.year == year,
            r.phase is None,
            r.downloads is None,
            r.conversions is None,
            r.discovered is None,
            r.success is None,
            r.error is None,
    {
        ProgressEvent {
            event: String::from_str(event),
            current,
            total,
            title,
            year,
            phase: None,
            downloads: None,
            conversions: None,
            discovered: None,
            success: None,
            error: None,
        }
    }
}

} // verus!
