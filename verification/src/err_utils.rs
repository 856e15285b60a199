//! Operator-visible failure reporting: severities and the C-style
//! result code.
//!
//! A message is shown on the status line for a severity-dependent
//! time; the fatal severity halts the process after display.  Drawing
//! and sleeping belong to the interface layer; the policy is here.

use vstd::prelude::*;

verus! {

/// Severity of an operator-visible message.
#[allow(non_camel_case_types)]
#[derive(Clone, Copy, PartialEq, Eq, Structural, Debug)]
pub enum LogLevel {
    DEBUG,
    INFO,
    WARN,
    ERR,
}

/// How long a message of this severity stays on the status line, and
/// whether the process halts afterwards.
pub fn log_level_policy(level: LogLevel) -> (r: (u64, bool))
    ensures
        level == LogLevel::DEBUG ==> r == (0u64, false),
        level == LogLevel::INFO ==> r == (1u64, false),
        level == LogLevel::WARN ==> r == (3u64, false),
        level == LogLevel::ERR ==> r == (3u64, true),
{
    match level {
        LogLevel::DEBUG => (0, false),
        LogLevel::INFO => (1, false),
        LogLevel::WARN => (3, false),
        LogLevel::ERR => (3, true),
    }
}

/// The success/failure code handed across the C boundary.
#[derive(Clone, Copy, PartialEq, Eq, Structural, Debug)]
pub enum CResult {
    Success,
    Failure,
}

impl CResult {
    /// Collapses a result to the C-style code.
    pub fn from_result<T, E>(result: &Result<T, E>) -> (r: CResult)
        ensures
            r == CResult::Success <==> result is Ok,
    {
        match result {
            Ok(_) => CResult::Success,
            Err(_) => CResult::Failure,
        }
    }

    /// Collapses an option to the C-style code.
    pub fn from_option<T>(option: &Option<T>) -> (r: CResult)
        ensures
            r == CResult::Success <==> option is Some,
    {
        match option {
            Some(_) => CResult::Success,
            None => CResult::Failure,
        }
    }
}

} // verus!
