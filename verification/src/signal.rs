//! The closed signal vocabulary: a handful of POSIX signal names the
//! supervisor understands, kept identical on every platform so that
//! configuration and cross-platform clients share one representation.
//! The external text form is the exact uppercase name; nothing else parses.
use vstd::prelude::*;

use crate::error::Error;
use crate::text::str_eq;

verus! {

/// The closed set of signal names. Immutable, copyable value type.
#[allow(non_camel_case_types)]
#[derive(Debug, Clone, Copy, PartialEq, Eq, Structural)]
pub enum Signal {
    INT,
    ILL,
    ABRT,
    FPE,
    KILL,
    SEGV,
    TERM,
    HUP,
    QUIT,
    ALRM,
    USR1,
    USR2,
    CHLD,
}

/// The exact text form of each signal.
pub open spec fn signal_text(s: Signal) -> Seq<char> {
    match s {
        Signal::INT => "INT"@,
        Signal::ILL => "ILL"@,
        Signal::ABRT => "ABRT"@,
        Signal::FPE => "FPE"@,
        Signal::KILL => "KILL"@,
        Signal::SEGV => "SEGV"@,
        Signal::TERM => "TERM"@,
        Signal::HUP => "HUP"@,
        Signal::QUIT => "QUIT"@,
        Signal::ALRM => "ALRM"@,
        Signal::USR1 => "USR1"@,
        Signal::USR2 => "USR2"@,
        Signal::CHLD => "CHLD"@,
    }
}

/// Which signal, if any, a text names: exactly the uppercase names above.
pub open spec fn signal_of_text(t: Seq<char>) -> Option<Signal> {
    if t == "HUP"@ {
        Some(Signal::HUP)
    } else if t == "INT"@ {
        Some(Signal::INT)
    } else if t == "QUIT"@ {
        Some(Signal::QUIT)
    } else if t == "ILL"@ {
        Some(Signal::ILL)
    } else if t == "ABRT"@ {
        Some(Signal::ABRT)
    } else if t == "FPE"@ {
        Some(Signal::FPE)
    } else if t == "KILL"@ {
        Some(Signal::KILL)
    } else if t == "USR1"@ {
        Some(Signal::USR1)
    } else if t == "SEGV"@ {
        Some(Signal::SEGV)
    } else if t == "USR2"@ {
        Some(Signal::USR2)
    } else if t == "ALRM"@ {
        Some(Signal::ALRM)
    } else if t == "TERM"@ {
        Some(Signal::TERM)
    } else if t == "CHLD"@ {
        Some(Signal::CHLD)
    } else {
        None
    }
}

impl Signal {
    /// Parses a signal name: succeeds exactly on the thirteen uppercase
    /// names; everything else (empty, lowercase, unknown, numeric) is
    /// rejected with the input echoed.
    pub fn parse(s: &str) -> (r: Result<Signal, Error>)
        ensures
            signal_of_text(s@) matches Some(sig) ==> r == Ok::<Signal, Error>(sig),
            signal_of_text(s@) is None ==> (r matches Err(e) && e matches Error::InvalidSignalName(
            m) && m@ == s@),
    {
        if str_eq(s, "HUP") {
            Ok(Signal::HUP)
        } else if str_eq(s, "INT") {
            Ok(Signal::INT)
        } else if str_eq(s, "QUIT") {
            Ok(Signal::QUIT)
        } else if str_eq(s, "ILL") {
            Ok(Signal::ILL)
        } else if str_eq(s, "ABRT") {
            Ok(Signal::ABRT)
        } else if str_eq(s, "FPE") {
            Ok(Signal::FPE)
        } else if str_eq(s, "KILL") {
            Ok(Signal::KILL)
        } else if str_eq(s, "USR1") {
            Ok(Signal::USR1)
        } else if str_eq(s, "SEGV") {
            Ok(Signal::SEGV)
        } else if str_eq(s, "USR2") {
            Ok(Signal::USR2)
        } else if str_eq(s, "ALRM") {
            Ok(Signal::ALRM)
        } else if str_eq(s, "TERM") {
            Ok(Signal::TERM)
        } else if str_eq(s, "CHLD") {
            Ok(Signal::CHLD)
        } else {
            Err(Error::InvalidSignalName(s.to_owned()))
        }
    }

    /// Renders the signal as its exact uppercase name; total, and the
    /// inverse of `parse` on every enumerated value.
    pub fn render(&self) -> (r: &'static str)
        ensures
            r@ == signal_text(*self),
    {
        match self {
            Signal::INT => "INT",
            Signal::ILL => "ILL",
            Signal::ABRT => "ABRT",
            Signal::FPE => "FPE",
            Signal::KILL => "KILL",
            Signal::SEGV => "SEGV",
            Signal::TERM => "TERM",
            Signal::HUP => "HUP",
            Signal::QUIT => "QUIT",
            Signal::ALRM => "ALRM",
            Signal::USR1 => "USR1",
            Signal::USR2 => "USR2",
            Signal::CHLD => "CHLD",
        }
    }
}

impl core::str::FromStr for Signal {
    type Err = Error;

    fn from_str(s: &str) -> Result<Signal, Error> {
        Signal::parse(s)
    }
}

/// Round trip: every signal's rendered name parses back to that signal.
pub proof fn lemma_signal_round_trip(s: Signal)
    ensures
        signal_of_text(signal_text(s)) == Some(s),
{
    reveal_strlit("INT");
    reveal_strlit("ILL");
    reveal_strlit("ABRT");
    reveal_strlit("FPE");
    reveal_strlit("KILL");
    reveal_strlit("SEGV");
    reveal_strlit("TERM");
    reveal_strlit("HUP");
    reveal_strlit("QUIT");
    reveal_strlit("ALRM");
    reveal_strlit("USR1");
    reveal_strlit("USR2");
    reveal_strlit("CHLD");
    assert("HUP"@.len() == 3 && "HUP"@[0] == 'H');
    assert("INT"@.len() == 3 && "INT"@[0] == 'I' && "INT"@[1] == 'N');
    assert("QUIT"@.len() == 4 && "QUIT"@[0] == 'Q');
    assert("ILL"@.len() == 3 && "ILL"@[0] == 'I' && "ILL"@[1] == 'L');
    assert("ABRT"@.len() == 4 && "ABRT"@[0] == 'A' && "ABRT"@[1] == 'B');
    assert("FPE"@.len() == 3 && "FPE"@[0] == 'F');
    assert("KILL"@.len() == 4 && "KILL"@[0] == 'K');
    assert("USR1"@.len() == 4 && "USR1"@[0] == 'U' && "USR1"@[3] == '1');
    assert("SEGV"@.len() == 4 && "SEGV"@[0] == 'S');
    assert("USR2"@.len() == 4 && "USR2"@[0] == 'U' && "USR2"@[3] == '2');
    assert("ALRM"@.len() == 4 && "ALRM"@[0] == 'A' && "ALRM"@[1] == 'L');
    assert("TERM"@.len() == 4 && "TERM"@[0] == 'T');
    assert("CHLD"@.len() == 4 && "CHLD"@[0] == 'C');
    match s {
        Signal::INT => assert(signal_of_text("INT"@) == Some(Signal::INT)),
        Signal::ILL => assert(signal_of_text("ILL"@) == Some(Signal::ILL)),
        Signal::ABRT => assert(signal_of_text("ABRT"@) == Some(Signal::ABRT)),
        Signal::FPE => assert(signal_of_text("FPE"@) == Some(Signal::FPE)),
        Signal::KILL => assert(signal_of_text("KILL"@) == Some(Signal::KILL)),
        Signal::SEGV => assert(signal_of_text("SEGV"@) == Some(Signal::SEGV)),
        Signal::TERM => assert(signal_of_text("TERM"@) == Some(Signal::TERM)),
        Signal::HUP => assert(signal_of_text("HUP"@) == Some(Signal::HUP)),
        Signal::QUIT => assert(signal_of_text("QUIT"@) == Some(Signal::QUIT)),
        Signal::ALRM => assert(signal_of_text("ALRM"@) == Some(Signal::ALRM)),
        Signal::USR1 => assert(signal_of_text("USR1"@) == Some(Signal::USR1)),
        Signal::USR2 => assert(signal_of_text("USR2"@) == Some(Signal::USR2)),
        Signal::CHLD => assert(signal_of_text("CHLD"@) == Some(Signal::CHLD)),
    }
}

/// No text containing a lowercase ASCII letter names a signal: in
/// particular every lowercase variant of a valid name is rejected.
pub proof fn lemma_lowercase_never_parses(t: Seq<char>, i: int)
    requires
        0 <= i < t.len(),
        97 <= t[i] as u32 <= 122,
    ensures
        signal_of_text(t) is None,
{
    reveal_strlit("INT");
    reveal_strlit("ILL");
    reveal_strlit("ABRT");
    reveal_strlit("FPE");
    reveal_strlit("KILL");
    reveal_strlit("SEGV");
    reveal_strlit("TERM");
    reveal_strlit("HUP");
    reveal_strlit("QUIT");
    reveal_strlit("ALRM");
    reveal_strlit("USR1");
    reveal_strlit("USR2");
    reveal_strlit("CHLD");
}

} // verus!
