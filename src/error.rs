use vstd::prelude::*;

verus! {

#[verifier::external_type_specification]
#[verifier::external_body]
pub struct ExIoError(std::io::Error);

#[verifier::external_type_specification]
#[verifier::external_body]
pub struct ExJsonError(serde_json::Error);

#[verifier::external_type_specification]
#[verifier::external_body]
pub struct ExNetworkError(reqwest::Error);

#[verifier::external_type_specification]
#[verifier::external_body]
pub struct ExZipError(zip::result::ZipError);

#[verifier::external_type_specification]
#[verifier::external_body]
pub struct ExImageError(image::ImageError);

#[verifier::external_type_specification]
#[verifier::external_body]
pub struct ExCompressorErrorCode(basis_universal::CompressorErrorCode);

/// Every failure the pipeline reports.
#[derive(Debug)]
pub enum ApplicationError {
    /// A configuration value was not recognised; carries the offending text.
    InvalidParameter(String),
    /// Remote metadata did not have the expected structure.
    InvalidMetadata,
    /// A decoded image has a pixel layout that does not match its role;
    /// carries the path of the offending file.
    InvalidImage(String),
    MetadataParse(serde_json::Error),
    Network(reqwest::Error),
    Io(std::io::Error),
    Zip(zip::result::ZipError),
    Image(image::ImageError),
    BasisUniversal(basis_universal::CompressorErrorCode),
}

impl From<serde_json::Error> for ApplicationError {
    fn from(err: serde_json::Error) -> (r: Self)
        ensures
            r == ApplicationError::MetadataParse(err),
    {
        ApplicationError::MetadataParse(err)
    }
}

impl vstd::std_specs::convert::FromSpecImpl<serde_json::Error> for ApplicationError {
    open spec fn obeys_from_spec() -> bool {
        true
    }

    open spec fn from_spec(err: serde_json::Error) -> Self {
        ApplicationError::MetadataParse(err)
    }
}

impl From<reqwest::Error> for ApplicationError {
    fn from(err: reqwest::Error) -> (r: Self)
        ensures
            r == ApplicationError::Network(err),
    {
        ApplicationError::Network(err)
    }
}

impl vstd::std_specs::convert::FromSpecImpl<reqwest::Error> for ApplicationError {
    open spec fn obeys_from_spec() -> bool {
        true
    }

    open spec fn from_spec(err: reqwest::Error) -> Self {
        ApplicationError::Network(err)
    }
}

impl From<std::io::Error> for ApplicationError {
    fn from(err: std::io::Error) -> (r: Self)
        ensures
            r == ApplicationError::Io(err),
    {
        ApplicationError::Io(err)
    }
}

impl vstd::std_specs::convert::FromSpecImpl<std::io::Error> for ApplicationError {
    open spec fn obeys_from_spec() -> bool {
        true
    }

    open spec fn from_spec(err: std::io::Error) -> Self {
        ApplicationError::Io(err)
    }
}

impl From<zip::result::ZipError> for ApplicationError {
    fn from(err: zip::result::ZipError) -> (r: Self)
        ensures
            r == ApplicationError::Zip(err),
    {
        ApplicationError::Zip(err)
    }
}

impl vstd::std_specs::convert::FromSpecImpl<zip::result::ZipError> for ApplicationError {
    open spec fn obeys_from_spec() -> bool {
        true
    }

    open spec fn from_spec(err: zip::result::ZipError) -> Self {
        ApplicationError::Zip(err)
    }
}

impl From<image::ImageError> for ApplicationError {
    fn from(err: image::ImageError) -> (r: Self)
        ensures
            r == ApplicationError::Image(err),
    {
        ApplicationError::Image(err)
    }
}

impl vstd::std_specs::convert::FromSpecImpl<image::ImageError> for ApplicationError {
    open spec fn obeys_from_spec() -> bool {
        true
    }

    open spec fn from_spec(err: image::ImageError) -> Self {
        ApplicationError::Image(err)
    }
}

impl From<basis_universal::CompressorErrorCode> for ApplicationError {
    fn from(err: basis_universal::CompressorErrorCode) -> (r: Self)
        ensures
            r == ApplicationError::BasisUniversal(err),
    {
        ApplicationError::BasisUniversal(err)
    }
}

impl vstd::std_specs::convert::FromSpecImpl<basis_universal::CompressorErrorCode> for ApplicationError {
    open spec fn obeys_from_spec() -> bool {
        true
    }

    open spec fn from_spec(err: basis_universal::CompressorErrorCode) -> Self {
        ApplicationError::BasisUniversal(err)
    }
}

} // verus!
