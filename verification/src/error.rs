use vstd::prelude::*;

verus! {

/// Why an operation on a device resource was refused.
#[derive(Clone, Debug, PartialEq, Eq)]
pub enum Error {
    /// An allocation or a compilation failed on the device.
    DeviceResourceError,
    /// The requested combination of format, filter or layer is not supported.
    UnsupportedConfiguration,
    /// An effect was applied while the named uniform or texture had no value.
    MissingBinding(String),
    /// A texture is read by an effect while it is the active write target.
    AliasingViolation,
}

impl Error {
    /// A short description of the error.
    pub fn message(&self) -> (text: &'static str)
        ensures
            text@ == Self::spec_message(*self),
    {
        match self {
            Error::DeviceResourceError => "the device could not provide the resource",
            Error::UnsupportedConfiguration => "the configuration is not supported",
            Error::MissingBinding(_) => "a uniform or texture of the shader has no value",
            Error::AliasingViolation => "a texture is read while it is written",
        }
    }

    /// The text that [`Error::message`] returns.
    pub open spec fn spec_message(e: Error) -> Seq<char> {
        match e {
            Error::DeviceResourceError => "the device could not provide the resource"@,
            Error::UnsupportedConfiguration => "the configuration is not supported"@,
            Error::MissingBinding(_) => "a uniform or texture of the shader has no value"@,
            Error::AliasingViolation => "a texture is read while it is written"@,
        }
    }
}

} // verus!
