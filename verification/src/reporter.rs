//! Progress narration: the reporter interface the worker talks to, and
//! the plain line-oriented reporter for non-interactive runs.
//!
//! The channel-backed reporter that feeds a live dashboard belongs to the
//! surrounding program; the library only fixes the interface and the
//! plain-text form.

use std::io::Write;

use vstd::prelude::*;

use crate::text::{blank, concat2};

verus! {

/// The narration interface of a run: a new phase, an in-phase detail
/// update, a persistent healthy status, a persistent error status.
pub trait Reporter {
    fn step(&self, title: String, body: String);

    fn update(&self, body: String);

    fn ok(&self, msg: String);

    fn error(&self, msg: String);
}

/// Relies on std::io::stderr and the writeln macro: writes one line to
/// standard error.
#[verifier::external_body]
fn emit_stderr_line(s: &str) {
    let mut err = std::io::stderr();
    let _ = writeln!(err, "{}", s);
}

/// The line-oriented reporter: each narration becomes one or two lines on
/// standard error, blank bodies suppressed.
#[derive(Clone, Copy, Debug, Default)]
pub struct PlainReporter;

impl PlainReporter {
    pub fn new() -> (r: Self)
    {
        PlainReporter
    }
}

impl Reporter for PlainReporter {
    fn step(&self, title: String, body: String) {
        let line = concat2("==> ", title.as_str());
        emit_stderr_line(line.as_str());
        if !blank(body.as_str()) {
            emit_stderr_line(body.as_str());
        }
    }

    fn update(&self, body: String) {
        if !blank(body.as_str()) {
            emit_stderr_line(body.as_str());
        }
    }

    fn ok(&self, msg: String) {
        if blank(msg.as_str()) {
            emit_stderr_line("OK");
        } else {
            let line = concat2("OK: ", msg.as_str());
            emit_stderr_line(line.as_str());
        }
    }

    fn error(&self, msg: String) {
        let line = concat2("ERROR: ", msg.as_str());
        emit_stderr_line(line.as_str());
    }
}

} // verus!
