//! Shutdown policy: how long to wait for a service to stop after the
//! shutdown signal, and which signal to send first. Both types have a
//! defined default and a plain external text form.
use vstd::prelude::*;

use crate::error::Error;
use crate::signal::{signal_of_text, signal_text, Signal};
use crate::text::{
    dec_rep, dec_text_value, is_dec_text, parse_dec_value, u32_to_string, DEC_SATURATION,
};
use core::time::Duration;

verus! {

/// The number of whole seconds a duration holds.
pub uninterp spec fn duration_secs(d: Duration) -> u64;

/// The duration of exactly a given count of whole seconds and nothing
/// more: what `Duration::from_secs` returns for that count.
pub uninterp spec fn duration_of_secs(secs: u64) -> Duration;

/// Relies on core::time::Duration::from_secs: builds the duration of
/// exactly the given number of whole seconds, with no sub-second part;
/// the result is a function of the count alone.
pub assume_specification[ Duration::from_secs ](secs: u64) -> (d: Duration)
    ensures
        d == duration_of_secs(secs),
        duration_secs(d) == secs,
;

/// Relies on core::time::Duration::as_secs: returns the number of whole
/// seconds the duration holds.
pub assume_specification[ Duration::as_secs ](d: &Duration) -> (s: u64)
    ensures
        s == duration_secs(*d),
;

/// How many seconds to wait, after sending a service the shutdown signal,
/// before killing it. The external form is the bare integer.
#[derive(Debug, Clone, Copy, PartialEq, Eq, Hash, Structural)]
pub struct ShutdownTimeout(pub u32);

impl ShutdownTimeout {
    /// The wait, in whole seconds.
    pub open spec fn secs(self) -> u32 {
        self.0
    }

    /// Parses a bare non-negative integer count of seconds; rejects
    /// everything else (negative, non-numeric, over 32 bits) with the
    /// input echoed.
    pub fn parse(s: &str) -> (r: Result<ShutdownTimeout, Error>)
        ensures
            r is Ok <==> is_dec_text(s@) && dec_text_value(s@) <= u32::MAX,
            r matches Ok(t) ==> t.secs() == dec_text_value(s@),
            r matches Err(e) ==> (e matches Error::InvalidTimeoutValue(m) && m@ == s@),
    {
        match parse_dec_value(s) {
            Some(v) => {
                if v <= 0xFFFF_FFFF {
                    proof {
                        assert(dec_text_value(s@) <= DEC_SATURATION as nat);
                    }
                    Ok(ShutdownTimeout(v as u32))
                } else {
                    Err(Error::InvalidTimeoutValue(s.to_owned()))
                }
            },
            None => Err(Error::InvalidTimeoutValue(s.to_owned())),
        }
    }

    /// The timeout as a duration: exactly `secs` seconds, no rounding and
    /// no sub-second part.
    pub fn to_duration(&self) -> (d: Duration)
        ensures
            d == duration_of_secs(self.secs() as u64),
            duration_secs(d) == self.secs() as u64,
    {
        Duration::from_secs(self.0 as u64)
    }

    /// The external text form: the bare integer.
    pub fn render_string(&self) -> (r: String)
        ensures
            r@ == dec_rep(self.secs() as nat),
    {
        u32_to_string(self.0)
    }
}

/// Round trip: the rendered text of any timeout is a valid timeout text
/// and denotes the same number of seconds, so parsing it back gives the
/// timeout back.
pub proof fn lemma_timeout_text_round_trip(t: ShutdownTimeout)
    ensures
        is_dec_text(dec_rep(t.secs() as nat)),
        dec_text_value(dec_rep(t.secs() as nat)) == t.secs() as nat,
{
    crate::text::lemma_dec_round_trip(t.secs() as nat);
}

impl Default for ShutdownTimeout {
    /// Unless configured otherwise, a service gets eight seconds to finish
    /// shutting down before it is killed.
    fn default() -> (r: Self)
        ensures
            r.secs() == 8,
    {
        ShutdownTimeout(8)
    }
}

impl core::str::FromStr for ShutdownTimeout {
    type Err = Error;

    fn from_str(s: &str) -> Result<ShutdownTimeout, Error> {
        ShutdownTimeout::parse(s)
    }
}

impl From<u32> for ShutdownTimeout {
    fn from(seconds: u32) -> (r: Self) {
        ShutdownTimeout(seconds)
    }
}

impl vstd::std_specs::convert::FromSpecImpl<u32> for ShutdownTimeout {
    open spec fn obeys_from_spec() -> bool {
        true
    }

    open spec fn from_spec(seconds: u32) -> Self {
        ShutdownTimeout(seconds)
    }
}

impl From<ShutdownTimeout> for u32 {
    fn from(timeout: ShutdownTimeout) -> (r: u32) {
        timeout.0
    }
}

impl vstd::std_specs::convert::FromSpecImpl<ShutdownTimeout> for u32 {
    open spec fn obeys_from_spec() -> bool {
        true
    }

    open spec fn from_spec(timeout: ShutdownTimeout) -> u32 {
        timeout.secs()
    }
}

/// Which signal a service is sent first when it is asked to shut down.
/// Transparent on the wire: its external form is the inner signal's name.
#[derive(Debug, Clone, Copy, PartialEq, Eq, Structural)]
pub struct ShutdownSignal(pub Signal);

impl ShutdownSignal {
    /// The wrapped signal.
    pub open spec fn sig(self) -> Signal {
        self.0
    }

    /// Parses a signal name, exactly as `Signal::parse` does.
    pub fn parse(s: &str) -> (r: Result<ShutdownSignal, Error>)
        ensures
            signal_of_text(s@) matches Some(sig) ==> (r matches Ok(ss) && ss.sig() == sig),
            signal_of_text(s@) is None ==> (r matches Err(e) && e matches Error::InvalidSignalName(
            m) && m@ == s@),
    {
        match Signal::parse(s) {
            Ok(sig) => Ok(ShutdownSignal(sig)),
            Err(e) => Err(e),
        }
    }

    /// Renders as the inner signal's exact uppercase name.
    pub fn render(&self) -> (r: &'static str)
        ensures
            r@ == signal_text(self.sig()),
    {
        self.0.render()
    }
}

impl Default for ShutdownSignal {
    /// Unless configured otherwise, services are shut down with `TERM`.
    fn default() -> (r: Self)
        ensures
            r.sig() == Signal::TERM,
    {
        ShutdownSignal(Signal::TERM)
    }
}

impl core::str::FromStr for ShutdownSignal {
    type Err = Error;

    fn from_str(s: &str) -> Result<ShutdownSignal, Error> {
        ShutdownSignal::parse(s)
    }
}

impl From<Signal> for ShutdownSignal {
    fn from(signal: Signal) -> (r: Self) {
        ShutdownSignal(signal)
    }
}

impl vstd::std_specs::convert::FromSpecImpl<Signal> for ShutdownSignal {
    open spec fn obeys_from_spec() -> bool {
        true
    }

    open spec fn from_spec(signal: Signal) -> Self {
        ShutdownSignal(signal)
    }
}

impl From<ShutdownSignal> for Signal {
    fn from(shutdown_signal: ShutdownSignal) -> (r: Signal) {
        shutdown_signal.0
    }
}

impl vstd::std_specs::convert::FromSpecImpl<ShutdownSignal> for Signal {
    open spec fn obeys_from_spec() -> bool {
        true
    }

    open spec fn from_spec(shutdown_signal: ShutdownSignal) -> Signal {
        shutdown_signal.sig()
    }
}

} // verus!
