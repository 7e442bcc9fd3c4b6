use vstd::prelude::*;

use super::{lua50, lua51};

verus! {

/// Lua 5.0 and Lua 5.1 compile constants. The Lua interpreter is compiled
/// with certain predefined constants that affect how the byte code is
/// generated. This structure represents the small subset of those constants
/// that matter for converting: one record for Lua 5.0 input, one for Lua
/// 5.1 input, and one for the emitted Lua 5.1 byte code.
#[derive(Clone, Debug, PartialEq, Eq, Hash)]
pub struct Settings {
    /// Lua 5.0 input compile constants.
    pub lua50: lua50::Settings,
    /// Lua 5.1 input compile constants.
    pub lua51: lua51::Settings,
    /// Emitted Lua 5.1 compile constants.
    pub output: lua51::Settings,
}

impl Settings {
    /// All three records hold layouts that fit the instruction word and
    /// limits small enough for the rewrite arithmetic.
    pub open spec fn wf(&self) -> bool {
        &&& self.lua50.wf()
        &&& self.lua51.wf()
        &&& self.output.wf()
    }

    /// Whether these are the constants of stock Lua 5.0 and Lua 5.1
    /// interpreters.
    pub open spec fn is_standard(&self) -> bool {
        &&& self.lua50.is_standard()
        &&& self.lua51.is_standard()
        &&& self.output.is_standard()
    }
}

impl Default for Settings {
    /// The constants of stock Lua 5.0 and Lua 5.1 interpreters.
    fn default() -> (result: Settings)
        ensures
            result.is_standard(),
            result.wf(),
    {
        let result = Settings {
            lua50: lua50::Settings::default(),
            lua51: lua51::Settings::default(),
            output: lua51::Settings::default(),
        };
        proof {
            lua50::lemma_standard_settings_wf();
            lua51::lemma_standard_settings_wf();
        }
        result
    }
}

} // verus!
