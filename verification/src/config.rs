//! Application configuration: backend credentials, model id and listener
//! settings, with the per-request credential overlay and the effective
//! Google-family key selection.

use vstd::prelude::*;
use vstd::string::*;

use crate::error::AppError;

verus! {

/// Configuration the gateway runs with. Credentials are optional per backend
/// family; a request may overlay its own values over them.
#[derive(Clone, Debug)]
pub struct AppConfig {
    /// Google API key for Gemini models.
    pub google_api_key: Option<String>,
    /// Alternate Google-family API key, used when the primary one is absent.
    pub gemini_api_key: Option<String>,
    /// Fal API key for the dynamic image models.
    pub fal_key: Option<String>,
    /// Google model id used by the chat-based editor.
    pub google_model_id: String,
    /// Allowed CORS origins.
    pub allowed_origins: Vec<String>,
    /// Listener host address.
    pub host: String,
    /// Listener port.
    pub port: u16,
}

impl AppConfig {
    /// The Google-family key in effect: the primary key when present,
    /// otherwise the alternate one.
    pub open spec fn spec_google_key(&self) -> Option<Seq<char>> {
        match self.google_api_key {
            Some(k) => Some(k@),
            None => match self.gemini_api_key {
                Some(k) => Some(k@),
                None => None,
            },
        }
    }

    /// The effective Google API key: the primary key overrides the alternate.
    pub fn get_google_api_key(&self) -> (r: Option<&str>)
        ensures
            match r {
                Some(k) => self.spec_google_key() == Some(k@),
                None => self.spec_google_key() is None,
            },
    {
        match &self.google_api_key {
            Some(k) => Some(k.as_str()),
            None => match &self.gemini_api_key {
                Some(k) => Some(k.as_str()),
                None => None,
            },
        }
    }

    /// Overlay per-request credential overrides: a present override fully
    /// replaces the corresponding base value; an absent one leaves it as is.
    pub fn with_overrides(
        self,
        google: Option<String>,
        gemini: Option<String>,
        fal: Option<String>,
    ) -> (r: AppConfig)
        ensures
            r.google_api_key == if google is Some {
                google
            } else {
                self.google_api_key
            },
            r.gemini_api_key == if gemini is Some {
                gemini
            } else {
                self.gemini_api_key
            },
            r.fal_key == if fal is Some {
                fal
            } else {
                self.fal_key
            },
            r.google_model_id == self.google_model_id,
            r.allowed_origins == self.allowed_origins,
            r.host == self.host,
            r.port == self.port,
    {
        let google_api_key = match google {
            Some(k) => Some(k),
            None => self.google_api_key,
        };
        let gemini_api_key = match gemini {
            Some(k) => Some(k),
            None => self.gemini_api_key,
        };
        let fal_key = match fal {
            Some(k) => Some(k),
            None => self.fal_key,
        };
        AppConfig {
            google_api_key,
            gemini_api_key,
            fal_key,
            google_model_id: self.google_model_id,
            allowed_origins: self.allowed_origins,
            host: self.host,
            port: self.port,
        }
    }

    /// Check the configuration: at least one credential must be set, the
    /// port must be nonzero and the host nonempty.
    pub fn validate(&self) -> (r: Result<(), AppError>)
        ensures
            match r {
                Ok(()) => {
                    &&& !(self.google_api_key is None && self.gemini_api_key is None
                        && self.fal_key is None)
                    &&& self.port != 0
                    &&& self.host@.len() != 0
                },
                Err(e) => {
                    &&& e is Config
                    &&& e->Config_0@ == if self.google_api_key is None && self.gemini_api_key
                        is None && self.fal_key is None {
                        "No API keys configured. At least one of GOOGLE_API_KEY, GEMINI_API_KEY, or FAL_KEY must be set."@
                    } else if self.port == 0 {
                        "Invalid port: 0. Port must be in range 1-65535."@
                    } else {
                        "Host cannot be empty"@
                    }
                    &&& (self.google_api_key is None && self.gemini_api_key is None
                        && self.fal_key is None) || self.port == 0 || self.host@.len() == 0
                },
            },
    {
        if self.google_api_key.is_none() && self.gemini_api_key.is_none()
            && self.fal_key.is_none() {
            return Err(
                AppError::Config(
                    String::from_str(
                        "No API keys configured. At least one of GOOGLE_API_KEY, GEMINI_API_KEY, or FAL_KEY must be set.",
                    ),
                ),
            );
        }
        if self.port == 0 {
            return Err(
                AppError::Config(
                    String::from_str("Invalid port: 0. Port must be in range 1-65535."),
                ),
            );
        }
        if self.host.as_str().is_empty() {
            return Err(AppError::Config(String::from_str("Host cannot be empty")));
        }
        Ok(())
    }
}

} // verus!
