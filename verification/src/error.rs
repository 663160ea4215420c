use vstd::prelude::*;

verus! {

/// Every failure the pipeline can report.
///
/// Decode failures are raised per datagram; the configuration failures are
/// raised once, before the tick loop starts; `OutputCommitFailure` is raised
/// when the output device rejects a completed frame.
#[derive(Clone, Copy, Debug, PartialEq, Eq, Structural)]
pub enum Error {
    /// The byte buffer was shorter than the exact wire size of one datagram.
    TruncatedDatagram,
    /// The configured property name is not in the known-property registry.
    UnknownProperty,
    /// The configured effect kind cannot consume the property's value domain.
    IncompatibleEffectBinding,
    /// A meter needs exactly one fixed range and one directional range.
    InvalidKeyboardGeometry,
    /// The configured color name is not in the color table.
    UnknownColor,
    /// The output device rejected the completed frame.
    OutputCommitFailure,
}

impl Error {
    /// A short, stable description of the error for operator-facing logs.
    pub fn describe(&self) -> (r: &'static str)
        ensures
            r@ == match self {
                Error::TruncatedDatagram => "truncated datagram"@,
                Error::UnknownProperty => "unknown property"@,
                Error::IncompatibleEffectBinding => "incompatible effect binding"@,
                Error::InvalidKeyboardGeometry => "invalid keyboard geometry"@,
                Error::UnknownColor => "unknown color"@,
                Error::OutputCommitFailure => "output commit failure"@,
            },
    {
        match self {
            Error::TruncatedDatagram => "truncated datagram",
            Error::UnknownProperty => "unknown property",
            Error::IncompatibleEffectBinding => "incompatible effect binding",
            Error::InvalidKeyboardGeometry => "invalid keyboard geometry",
            Error::UnknownColor => "unknown color",
            Error::OutputCommitFailure => "output commit failure",
        }
    }
}

} // verus!
