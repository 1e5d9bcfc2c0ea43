//! Light and dark window decorations.

use vstd::prelude::*;

verus! {

/// The colors of a window's decorations.
#[derive(Debug, Clone, Copy, PartialEq, Eq, Structural)]
pub enum Theme {
    Light,
    Dark,
}

/// The first build of the platform that can draw dark decorations.
pub const FIRST_DARK_MODE_BUILD: u32 = 17763;

impl Theme {
    /// Tells whether the theme asks for dark decorations.
    pub fn is_dark(&self) -> (dark: bool)
        ensures
            dark == (*self == Theme::Dark),
    {
        match self {
            Theme::Dark => true,
            Theme::Light => false,
        }
    }
}

/// The build number of a platform of version 10.0, from what its version
/// query reported: the status of the query, which is negative when it
/// failed, and the major, minor and build numbers. Any other version, and a
/// failed query, give `None`.
pub fn win10_build(
    status: i32,
    major_version: u32,
    minor_version: u32,
    build_number: u32,
) -> (build: Option<u32>)
    ensures
        build == if status >= 0 && major_version == 10 && minor_version == 0 {
            Some(build_number)
        } else {
            None
        },
{
    if status >= 0 && major_version == 10 && minor_version == 0 {
        Some(build_number)
    } else {
        None
    }
}

/// Tells whether the platform can draw dark decorations: it is of version
/// 10.0 and of build 17763 or later.
pub fn dark_mode_supported(build: Option<u32>) -> (supported: bool)
    ensures
        supported == (build matches Some(number) && number >= FIRST_DARK_MODE_BUILD),
{
    match build {
        Some(number) => number >= FIRST_DARK_MODE_BUILD,
        None => false,
    }
}

} // verus!
