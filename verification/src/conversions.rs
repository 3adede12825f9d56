//! The conversion traits between the external binary representations and
//! the library's typed values.

use vstd::prelude::*;

use crate::time::{spec_combine_ticks, FileTime};

verus! {

/// Construct `Self` out of an external representation. The spec method
/// names the value the conversion must produce, so that callers through
/// either trait keep an exact contract.
pub trait WindowsConversionFrom<T>: Sized {
    /// The converted value.
    spec fn win_from_spec(value: T) -> Self;

    fn win_from(value: T) -> (r: Self)
        ensures
            r == Self::win_from_spec(value),
    ;
}

/// Convert `self` into `T`; the mirror of [`WindowsConversionFrom`].
pub trait WindowsConversionTo<T>: Sized {
    /// The converted value.
    spec fn win_into_spec(self) -> T;

    fn win_into(self) -> (r: T)
        ensures
            r == self.win_into_spec(),
    ;
}

impl<T, U: WindowsConversionFrom<T>> WindowsConversionTo<U> for T {
    open spec fn win_into_spec(self) -> U {
        U::win_from_spec(self)
    }

    fn win_into(self) -> (r: U) {
        U::win_from(self)
    }
}

impl WindowsConversionFrom<u64> for FileTime {
    /// The tick count split into its legacy low and high halves.
    open spec fn win_from_spec(value: u64) -> FileTime {
        FileTime { low: (value & 0xFFFF_FFFFu64) as u32, high: (value >> 32u64) as u32 }
    }

    fn win_from(value: u64) -> (r: Self) {
        FileTime::from_ticks(value)
    }
}

impl WindowsConversionFrom<FileTime> for u64 {
    /// The legacy halves recombined into the tick count.
    open spec fn win_from_spec(value: FileTime) -> u64 {
        spec_combine_ticks(value.low, value.high)
    }

    fn win_from(value: FileTime) -> (r: Self) {
        value.to_ticks()
    }
}

} // verus!
