//! How a package uninstall chooses versions: remove a single package, or
//! keep the newest few and remove the rest. The CLI hands this module the
//! optional keep-latest text it was given; the decision is made here.
use vstd::prelude::*;

use crate::text::{dec_text_value, is_dec_text, parse_dec_value, DEC_SATURATION};

verus! {

/// The uninstall mode a caller asked for.
#[derive(Debug, Clone, Copy, PartialEq, Eq, Structural)]
pub enum UninstallMode {
    /// Remove exactly the named package.
    Single,
    /// Keep this many of the newest versions and remove the rest.
    KeepLatest(usize),
}

impl UninstallMode {
    /// The mode an optional keep-latest count selects: a text that parses
    /// as a count keeps that many newest versions; an absent or unusable
    /// text (non-numeric, negative, too large) means a single uninstall.
    pub fn from_keep_latest(v: Option<&str>) -> (r: UninstallMode)
        ensures
            v is None ==> r == UninstallMode::Single,
            v matches Some(s) ==> r == (if is_dec_text(s@) && dec_text_value(s@) <= usize::MAX {
                UninstallMode::KeepLatest(dec_text_value(s@) as usize)
            } else {
                UninstallMode::Single
            }),
    {
        match v {
            None => UninstallMode::Single,
            Some(s) => match parse_dec_value(s) {
                Some(count) => {
                    if count <= usize::MAX as u128 {
                        proof {
                            assert(dec_text_value(s@) <= DEC_SATURATION as nat);
                        }
                        UninstallMode::KeepLatest(count as usize)
                    } else {
                        UninstallMode::Single
                    }
                },
                None => UninstallMode::Single,
            },
        }
    }
}

} // verus!
