//! Monitors show the state of a fuzzing session; here, the formatting of
//! the durations they print.
use vstd::prelude::*;
use crate::common::{decimal_string_u64, spec_digits};

verus! {

/// The most simple monitor, dumping the statistics of the workers to stdout.
#[derive(Debug, Clone)]
pub struct SimpleMonitor {}

impl SimpleMonitor {
    /// A monitor.
    pub fn new() -> (r: Self) {
        SimpleMonitor {  }
    }
}

impl Default for SimpleMonitor {
    fn default() -> (r: Self) {
        Self::new()
    }
}

/// `n` in decimal, with a leading zero when it has a single digit.
pub open spec fn spec_pad2(n: nat) -> Seq<char> {
    if n < 10 {
        seq!['0'] + spec_digits(n)
    } else {
        spec_digits(n)
    }
}

/// A number of seconds as hours, minutes and seconds: `HH:MM:SS`, each
/// part on at least two digits (the hours may take more).
pub open spec fn spec_hhmmss(total_secs: nat) -> Seq<char> {
    spec_pad2(total_secs / 3600) + seq![':'] + spec_pad2((total_secs % 3600) / 60) + seq![':']
        + spec_pad2(total_secs % 60)
}

/// `n` in decimal on at least two digits.
fn pad2(n: u64) -> (r: String)
    ensures
        r@ == spec_pad2(n as nat),
{
    let d = decimal_string_u64(n);
    if n < 10 {
        let mut s = "0".to_string();
        s.append(d.as_str());
        proof {
            reveal_strlit("0");
        }
        assert(s@ =~= seq!['0'] + spec_digits(n as nat));
        s
    } else {
        d
    }
}

/// Formats a number of seconds as `HH:MM:SS`.
pub fn format_hhmmss(total_secs: u64) -> (r: String)
    ensures
        r@ == spec_hhmmss(total_secs as nat),
{
    let hours = total_secs / 3600;
    let mins = (total_secs % 3600) / 60;
    let secs = total_secs % 60;
    let mut s = pad2(hours);
    s.append(":");
    s.append(pad2(mins).as_str());
    s.append(":");
    s.append(pad2(secs).as_str());
    proof {
        reveal_strlit(":");
    }
    assert(s@ =~= spec_hhmmss(total_secs as nat));
    s
}

} // verus!
