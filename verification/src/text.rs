//! Text of the notes that the self-test hands to its reporter.
use std::fmt::Write;
use vstd::prelude::*;
use vstd::string::StringExecFns;
use crate::self_test::{CameraFrameStats, TouchPoint};

verus! {

/// The decimal digit character of `d` (`0 <= d < 10`).
pub open spec fn digit_char(d: nat) -> char {
    if d == 0 {
        '0'
    } else if d == 1 {
        '1'
    } else if d == 2 {
        '2'
    } else if d == 3 {
        '3'
    } else if d == 4 {
        '4'
    } else if d == 5 {
        '5'
    } else if d == 6 {
        '6'
    } else if d == 7 {
        '7'
    } else if d == 8 {
        '8'
    } else {
        '9'
    }
}

/// Decimal notation of `n`, without leading zeros.
pub open spec fn decimal(n: nat) -> Seq<char>
    decreases n,
{
    if n < 10 {
        seq![digit_char(n)]
    } else {
        decimal(n / 10).push(digit_char(n % 10))
    }
}

/// Text of a boolean, as `Display` writes it.
pub open spec fn bool_word(b: bool) -> Seq<char> {
    if b {
        "true"@
    } else {
        "false"@
    }
}

fn digit_str(d: u64) -> (s: &'static str)
    requires
        d < 10,
    ensures
        s@ == seq![digit_char(d as nat)],
{
    proof {
        reveal_strlit("0");
        reveal_strlit("1");
        reveal_strlit("2");
        reveal_strlit("3");
        reveal_strlit("4");
        reveal_strlit("5");
        reveal_strlit("6");
        reveal_strlit("7");
        reveal_strlit("8");
        reveal_strlit("9");
    }
    match d {
        0 => "0",
        1 => "1",
        2 => "2",
        3 => "3",
        4 => "4",
        5 => "5",
        6 => "6",
        7 => "7",
        8 => "8",
        _ => "9",
    }
}

/// Decimal notation of `n`.
pub fn decimal_text(n: u64) -> (s: String)
    ensures
        s@ == decimal(n as nat),
    decreases n,
{
    if n < 10 {
        String::from_str(digit_str(n))
    } else {
        let mut s = decimal_text(n / 10);
        s.append(digit_str(n % 10));
        s
    }
}

/// `"true"` or `"false"`.
pub fn bool_text(b: bool) -> (s: &'static str)
    ensures
        s@ == bool_word(b),
{
    if b {
        "true"
    } else {
        "false"
    }
}

/// The text that `E`'s `Debug` implementation writes for `value`, written
/// into a `String` with `write!`; a formatting error from that
/// implementation is dropped, and the text written up to it is kept.
///
/// Trusted: nothing is stated of the text, which is whatever the caller's
/// `Debug` implementation produces.
#[verifier::external_body]
pub(crate) fn debug_text<E: core::fmt::Debug>(value: &E) -> String {
    let mut text = String::new();
    let _ = write!(text, "{:?}", value);
    text
}

/// The text `"Probe error for <label>: "`, the lead-in of a probe error note.
pub open spec fn probe_error_lead(label: Seq<char>) -> Seq<char> {
    "Probe error for "@ + label + ": "@
}

/// `"Probe error for <label>: "`, the lead-in of a probe error note.
pub fn probe_error_context(label: &str) -> (text: String)
    ensures
        text@ == probe_error_lead(label@),
{
    let mut text = String::from_str("Probe error for ");
    text.append(label);
    text.append(": ");
    text
}

/// The text `"Touch sample: (<x>, <y>)"`.
pub open spec fn touch_sample_text(point: TouchPoint) -> Seq<char> {
    "Touch sample: ("@ + decimal(point.x as nat) + ", "@ + decimal(point.y as nat) + ")"@
}

/// `"Touch sample: (<x>, <y>)"`.
pub fn touch_sample_message(point: TouchPoint) -> (text: String)
    ensures
        text@ == touch_sample_text(point),
{
    let mut text = String::from_str("Touch sample: (");
    let x = decimal_text(point.x as u64);
    text.append(x.as_str());
    text.append(", ");
    let y = decimal_text(point.y as u64);
    text.append(y.as_str());
    text.append(")");
    text
}

/// The text `"<label> state changed from <idle> to <active>"`.
pub open spec fn state_change_text(label: Seq<char>, idle: bool, active: bool) -> Seq<char> {
    label + " state changed from "@ + bool_word(idle) + " to "@ + bool_word(active)
}

/// `"<label> state changed from <idle> to <active>"`.
pub fn state_change_message(label: &str, idle: bool, active: bool) -> (text: String)
    ensures
        text@ == state_change_text(label@, idle, active),
{
    let mut text = String::from_str(label);
    text.append(" state changed from ");
    text.append(bool_text(idle));
    text.append(" to ");
    text.append(bool_text(active));
    text
}

/// The text `"Observed microphone peak <peak> (threshold <threshold>)."`.
pub open spec fn microphone_peak_text(peak: u16, threshold: u16) -> Seq<char> {
    "Observed microphone peak "@ + decimal(peak as nat) + " (threshold "@ + decimal(threshold as nat) + ")."@
}

/// `"Observed microphone peak <peak> (threshold <threshold>)."`.
pub fn microphone_peak_message(peak: u16, threshold: u16) -> (text: String)
    ensures
        text@ == microphone_peak_text(peak, threshold),
{
    let mut text = String::from_str("Observed microphone peak ");
    let p = decimal_text(peak as u64);
    text.append(p.as_str());
    text.append(" (threshold ");
    let t = decimal_text(threshold as u64);
    text.append(t.as_str());
    text.append(").");
    text
}

/// The text `"Camera frame stats: <width>x<height>, non_zero_bytes=<count>"`.
pub open spec fn camera_stats_text(stats: CameraFrameStats) -> Seq<char> {
    "Camera frame stats: "@ + decimal(stats.width as nat) + "x"@ + decimal(stats.height as nat)
        + ", non_zero_bytes="@ + decimal(stats.non_zero_bytes as nat)
}

/// `"Camera frame stats: <width>x<height>, non_zero_bytes=<count>"`.
pub fn camera_stats_message(stats: CameraFrameStats) -> (text: String)
    ensures
        text@ == camera_stats_text(stats),
{
    let mut text = String::from_str("Camera frame stats: ");
    let w = decimal_text(stats.width as u64);
    text.append(w.as_str());
    text.append("x");
    let h = decimal_text(stats.height as u64);
    text.append(h.as_str());
    text.append(", non_zero_bytes=");
    let n = decimal_text(stats.non_zero_bytes as u64);
    text.append(n.as_str());
    text
}

} // verus!
