//! Small helpers of the kernel.

use vstd::prelude::*;

verus! {

/// The banner that the kernel shows when it starts, ending in its version.
pub const ASCII_HEADER: &'static str = r"
__  __      __  _____            ____  _____
\ \/ /___ _/ /_/ ___/___  ____  / __ \/ ___/
 \  / __ `/ __/\__ \/ _ \/ __ \/ / / /\__ \
 / / /_/ / /_ ___/ /  __/ / / / /_/ /___/ /
/_/\__,_/\__//____/\___/_/ /_/\____//____/

                                       v0.1.0";

/// The banner that the kernel shows when it starts.
pub fn get_ascii_header() -> (header: &'static str)
    ensures
        header@ == ASCII_HEADER@,
{
    ASCII_HEADER
}

} // verus!
