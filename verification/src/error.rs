//! Error taxonomy of the gateway. Each variant carries a human-readable
//! message and maps to a fixed HTTP status class and a stable
//! machine-readable tag.

use vstd::prelude::*;
use vstd::string::*;

verus! {

/// All failures that can cross the gateway's public boundary.
#[derive(Debug)]
pub enum AppError {
    /// Configuration is missing or inconsistent.
    Config(String),
    /// The input is not a usable image.
    ImageProcessing(String),
    /// The requested provider is unknown or not configured.
    ProviderNotFound(String),
    /// A backend call failed or returned an unusable response.
    ProviderError(String),
    /// Malformed request data from the client.
    InvalidInput(String),
    /// An internal failure with context.
    InternalServer(String),
    /// An uncategorized internal failure.
    Internal(String),
}

impl AppError {
    /// The HTTP status code this error maps to.
    pub fn status_code(&self) -> (r: u16)
        ensures
            r == match self {
                AppError::InvalidInput(_) => 400u16,
                AppError::ImageProcessing(_) => 400u16,
                AppError::ProviderNotFound(_) => 404u16,
                AppError::Config(_) => 500u16,
                AppError::ProviderError(_) => 500u16,
                AppError::InternalServer(_) => 500u16,
                AppError::Internal(_) => 500u16,
            },
    {
        match self {
            AppError::InvalidInput(_) => 400,
            AppError::ImageProcessing(_) => 400,
            AppError::ProviderNotFound(_) => 404,
            AppError::Config(_) => 500,
            AppError::ProviderError(_) => 500,
            AppError::InternalServer(_) => 500,
            AppError::Internal(_) => 500,
        }
    }

    /// The stable machine-readable tag for this error.
    pub fn error_type(&self) -> (r: &'static str)
        ensures
            r@ == match self {
                AppError::Config(_) => "config_error"@,
                AppError::ImageProcessing(_) => "image_processing_error"@,
                AppError::ProviderNotFound(_) => "provider_not_found"@,
                AppError::ProviderError(_) => "provider_error"@,
                AppError::InvalidInput(_) => "invalid_input"@,
                AppError::InternalServer(_) => "internal_server_error"@,
                AppError::Internal(_) => "internal_error"@,
            },
    {
        match self {
            AppError::Config(_) => "config_error",
            AppError::ImageProcessing(_) => "image_processing_error",
            AppError::ProviderNotFound(_) => "provider_not_found",
            AppError::ProviderError(_) => "provider_error",
            AppError::InvalidInput(_) => "invalid_input",
            AppError::InternalServer(_) => "internal_server_error",
            AppError::Internal(_) => "internal_error",
        }
    }

    /// The full human-readable message: a fixed variant prefix followed by
    /// the detail text.
    pub fn message(&self) -> (r: String)
        ensures
            r@ == match self {
                AppError::Config(s) => "Configuration error: "@ + s@,
                AppError::ImageProcessing(s) => "Image processing error: "@ + s@,
                AppError::ProviderNotFound(s) => "Provider not found: "@ + s@,
                AppError::ProviderError(s) => "Provider error: "@ + s@,
                AppError::InvalidInput(s) => "Invalid input: "@ + s@,
                AppError::InternalServer(s) => "Internal server error: "@ + s@,
                AppError::Internal(s) => s@,
            },
    {
        match self {
            AppError::Config(s) => String::from_str("Configuration error: ").concat(s.as_str()),
            AppError::ImageProcessing(s) => String::from_str("Image processing error: ").concat(
                s.as_str(),
            ),
            AppError::ProviderNotFound(s) => String::from_str("Provider not found: ").concat(
                s.as_str(),
            ),
            AppError::ProviderError(s) => String::from_str("Provider error: ").concat(s.as_str()),
            AppError::InvalidInput(s) => String::from_str("Invalid input: ").concat(s.as_str()),
            AppError::InternalServer(s) => String::from_str("Internal server error: ").concat(
                s.as_str(),
            ),
            AppError::Internal(s) => String::from_str(s.as_str()),
        }
    }
}

} // verus!
