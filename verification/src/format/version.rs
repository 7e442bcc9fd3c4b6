use vstd::prelude::*;

use crate::error::LunifyError;

verus! {

/// List of supported Lua versions.
#[derive(Clone, Copy, Debug, PartialEq, Eq, Structural, Hash)]
pub enum LuaVersion {
    /// Lua 5.0.*
    Lua50,
    /// Lua 5.1.*
    Lua51,
}

impl LuaVersion {
    /// Parse the version byte of the header.
    pub fn try_from(value: u8) -> (result: Result<LuaVersion, LunifyError>)
        ensures
            result == (match value {
                0x50u8 => Result::<LuaVersion, LunifyError>::Ok(LuaVersion::Lua50),
                0x51u8 => Result::<LuaVersion, LunifyError>::Ok(LuaVersion::Lua51),
                _ => Result::<LuaVersion, LunifyError>::Err(LunifyError::UnsupportedVersion(value)),
            }),
    {
        match value {
            0x51 => Ok(LuaVersion::Lua51),
            0x50 => Ok(LuaVersion::Lua50),
            version => Err(LunifyError::UnsupportedVersion(version)),
        }
    }

    /// The version byte that stands for this version in the header.
    pub fn to_u8(self) -> (result: u8)
        ensures
            result == (match self {
                LuaVersion::Lua50 => 0x50u8,
                LuaVersion::Lua51 => 0x51u8,
            }),
    {
        match self {
            LuaVersion::Lua51 => 0x51,
            LuaVersion::Lua50 => 0x50,
        }
    }

    /// A printable name for this version.
    pub fn display_text(self) -> (result: &'static str)
        ensures
            self == LuaVersion::Lua50 ==> result@ == "Lua 5.0"@,
            self == LuaVersion::Lua51 ==> result@ == "Lua 5.1"@,
    {
        match self {
            LuaVersion::Lua50 => "Lua 5.0",
            LuaVersion::Lua51 => "Lua 5.1",
        }
    }
}

} // verus!
