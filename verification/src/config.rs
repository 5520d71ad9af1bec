use vstd::prelude::*;

verus! {

/// Country code used when the configuration names none.
pub fn default_country_code() -> (s: String)
    ensures
        s@ == "US"@,
{
    String::from_str("US")
}

/// Port of the local login redirect server when the configuration names none.
pub fn default_redirect_port() -> (p: u16)
    ensures
        p == 8080,
{
    8080
}

/// Credentials and region for the TIDAL API.
#[derive(Debug, Clone)]
pub struct ApiConfig {
    pub client_id: String,
    pub client_secret: String,
    /// ISO 3166-1 alpha-2 country code — required on every TIDAL API request.
    pub country_code: String,
    /// localhost port for the PKCE OAuth2 redirect server.
    pub redirect_port: u16,
}

/// Audio output preferences.
#[derive(Debug, Clone)]
pub struct AudioConfig {
    /// LOW | HIGH | LOSSLESS | HI_RES
    pub quality: String,
    pub device: String,
    pub exclusive_mode: bool,
}

/// Shuffle preference: off | random | favourites | discovery.
#[derive(Debug, Clone)]
pub struct ShuffleConfig {
    pub mode: String,
}

/// Repeat preference: off | one | all.
#[derive(Debug, Clone)]
pub struct RepeatConfig {
    pub mode: String,
}

/// Interface preferences.
#[derive(Debug, Clone)]
pub struct UiConfig {
    pub theme: String,
    pub artwork_enabled: bool,
}

} // verus!
