//! The errors of a capture backend.

use vstd::prelude::*;

use crate::types::ApiBackend;

verus! {

/// What can go wrong while a camera is opened, configured or read.
#[derive(Debug)]
pub enum NokhwaError {
    /// A value of a type could not be made.
    StructureError { structure: String, error: String },
    /// The device could not be opened: which one, and why.
    OpenDeviceError(String, String),
    GetPropertyError { property: String, error: String },
    SetPropertyError { property: String, value: String, error: String },
    OpenStreamError(String),
    ReadFrameError(String),
    UnsupportedOperationError(ApiBackend),
}

/// The texts of a [`NokhwaError`].
#[verifier::ext_equal]
pub enum NokhwaErrorView {
    StructureError { structure: Seq<char>, error: Seq<char> },
    OpenDeviceError(Seq<char>, Seq<char>),
    GetPropertyError { property: Seq<char>, error: Seq<char> },
    SetPropertyError { property: Seq<char>, value: Seq<char>, error: Seq<char> },
    OpenStreamError(Seq<char>),
    ReadFrameError(Seq<char>),
    UnsupportedOperationError(ApiBackend),
}

impl View for NokhwaError {
    type V = NokhwaErrorView;

    open spec fn view(&self) -> NokhwaErrorView {
        match self {
            NokhwaError::StructureError { structure, error } => NokhwaErrorView::StructureError {
                structure: structure@,
                error: error@,
            },
            NokhwaError::OpenDeviceError(device, error) => NokhwaErrorView::OpenDeviceError(
                device@,
                error@,
            ),
            NokhwaError::GetPropertyError { property, error } => NokhwaErrorView::GetPropertyError {
                property: property@,
                error: error@,
            },
            NokhwaError::SetPropertyError { property, value, error } =>
                NokhwaErrorView::SetPropertyError {
                property: property@,
                value: value@,
                error: error@,
            },
            NokhwaError::OpenStreamError(error) => NokhwaErrorView::OpenStreamError(error@),
            NokhwaError::ReadFrameError(error) => NokhwaErrorView::ReadFrameError(error@),
            NokhwaError::UnsupportedOperationError(backend) =>
                NokhwaErrorView::UnsupportedOperationError(*backend),
        }
    }
}

/// A result with its error seen through its texts.
pub open spec fn outcome<T>(r: Result<T, NokhwaError>) -> Result<T, NokhwaErrorView> {
    match r {
        Ok(value) => Ok(value),
        Err(error) => Err(error@),
    }
}

/// A reply of the device with its error text seen as characters.
pub open spec fn reply<T>(r: Result<T, String>) -> Result<T, Seq<char>> {
    match r {
        Ok(value) => Ok(value),
        Err(error) => Err(error@),
    }
}

impl NokhwaErrorView {
    /// The sentence that reports the error.
    pub open spec fn message(self) -> Seq<char> {
        match self {
            NokhwaErrorView::StructureError { structure, error } =>
                "Could not generate required structure "@ + structure + ": "@ + error,
            NokhwaErrorView::OpenDeviceError(device, error) =>
                "Could not open device "@ + device + ": "@ + error,
            NokhwaErrorView::GetPropertyError { property, error } =>
                "Could not get device property "@ + property + ": "@ + error,
            NokhwaErrorView::SetPropertyError { property, value, error } =>
                "Could not set device property "@ + property + " with value "@ + value + ": "@ + error,
            NokhwaErrorView::OpenStreamError(error) => "Could not open device stream: "@ + error,
            NokhwaErrorView::ReadFrameError(error) => "Could not capture frame: "@ + error,
            NokhwaErrorView::UnsupportedOperationError(backend) =>
                "This operation is not supported by backend "@ + backend.name_spec() + "."@,
        }
    }
}

impl NokhwaError {
    /// The sentence that reports the error.
    pub fn message(&self) -> (text: String)
        ensures
            text@ == self@.message(),
    {
        match self {
            NokhwaError::StructureError { structure, error } =>
                "Could not generate required structure ".to_owned().concat(
                structure.as_str(),
            ).concat(": ").concat(error.as_str()),
            NokhwaError::OpenDeviceError(device, error) => "Could not open device ".to_owned().concat(
                device.as_str(),
            ).concat(": ").concat(error.as_str()),
            NokhwaError::GetPropertyError { property, error } =>
                "Could not get device property ".to_owned().concat(property.as_str()).concat(
                ": ",
            ).concat(error.as_str()),
            NokhwaError::SetPropertyError { property, value, error } =>
                "Could not set device property ".to_owned().concat(property.as_str()).concat(
                " with value ",
            ).concat(value.as_str()).concat(": ").concat(error.as_str()),
            NokhwaError::OpenStreamError(error) =>
                "Could not open device stream: ".to_owned().concat(error.as_str()),
            NokhwaError::ReadFrameError(error) => "Could not capture frame: ".to_owned().concat(
                error.as_str(),
            ),
            NokhwaError::UnsupportedOperationError(backend) =>
                "This operation is not supported by backend ".to_owned().concat(
                backend.name().as_str(),
            ).concat("."),
        }
    }
}

} // verus!
