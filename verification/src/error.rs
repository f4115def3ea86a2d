use vstd::prelude::*;

verus! {

/// The failures a banner request can run into.
///
/// `MalformedColor` marks a supplied color value that is not exactly six hex
/// digits; `IconNotFound` marks an icon name that fails validation or has no
/// file behind it; `IconReadFailure` marks a file that exists but cannot be
/// read (raised only at the I/O boundary, never by the library itself).
#[derive(Debug, Clone, Copy, PartialEq, Eq, Structural)]
pub enum BannerError {
    MalformedColor,
    IconNotFound,
    IconReadFailure,
}

} // verus!
