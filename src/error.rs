use vstd::prelude::*;

verus! {

/// What can go wrong while creating or using a native resource.
#[derive(Debug, PartialEq, Eq)]
pub enum GlError {
    /// A text handed to the native API holds a NUL byte.
    Encoding,
    /// The compile status was false; carries the driver's diagnostic bytes.
    Compile(Vec<u8>),
    /// The link status was false; carries the driver's diagnostic bytes.
    Link(Vec<u8>),
    /// A program was to be linked from no shader at all.
    NoShaders,
    /// A required platform extension function could not be resolved.
    ExtensionUnavailable,
    /// Any other native failure (a zero identifier, a failed context call).
    NativeApi,
}

} // verus!
