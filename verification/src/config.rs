//! Settings: the credentials of the seller as the application keeps them,
//! and their validation.

use vstd::prelude::*;
use vstd::string::*;
use crate::client::G2GAuthTokens;

verus! {

/// The credentials of the seller, as they are kept in the settings.
#[derive(Debug, Clone)]
pub struct G2GSettings {
    pub user_id: String,
    pub refresh_token: String,
    pub long_lived_token: String,
    pub active_device_token: String,
}

/// The settings of the application.
#[derive(Debug, Clone)]
pub struct AppSettings {
    pub g2g: G2GSettings,
    pub theme: Option<String>,
}

/// Whether every field of the settings holds something.
pub open spec fn is_complete(settings: G2GSettings) -> bool {
    &&& settings.user_id@.len() > 0
    &&& settings.refresh_token@.len() > 0
    &&& settings.long_lived_token@.len() > 0
    &&& settings.active_device_token@.len() > 0
}

/// The complaint about the first empty field of settings that are not
/// complete, the fields taken in the order user id, refresh token, long
/// lived token, active device token.
pub open spec fn complaint_of(settings: G2GSettings) -> Seq<char> {
    if settings.user_id@.len() == 0 {
        "User ID is empty"@
    } else if settings.refresh_token@.len() == 0 {
        "Refresh token is empty"@
    } else if settings.long_lived_token@.len() == 0 {
        "Long lived token is empty"@
    } else {
        "Active device token is empty"@
    }
}

impl G2GSettings {
    /// Checks that no field is empty. The error names the first field that
    /// is.
    pub fn validate(&self) -> (r: Result<(), String>)
        ensures
            r is Ok <==> is_complete(*self),
            r matches Err(complaint) ==> complaint@ == complaint_of(*self),
    {
        if self.user_id.as_str().is_empty() {
            return Err("User ID is empty".to_owned());
        }
        if self.refresh_token.as_str().is_empty() {
            return Err("Refresh token is empty".to_owned());
        }
        if self.long_lived_token.as_str().is_empty() {
            return Err("Long lived token is empty".to_owned());
        }
        if self.active_device_token.as_str().is_empty() {
            return Err("Active device token is empty".to_owned());
        }
        Ok(())
    }

    /// The credentials in the form that the client takes them in.
    pub fn tokens(&self) -> (tokens: G2GAuthTokens)
        ensures
            tokens.user_id@ == self.user_id@,
            tokens.refresh_token@ == self.refresh_token@,
            tokens.long_lived_token@ == self.long_lived_token@,
            tokens.active_device_token@ == self.active_device_token@,
    {
        G2GAuthTokens {
            user_id: self.user_id.clone(),
            refresh_token: self.refresh_token.clone(),
            long_lived_token: self.long_lived_token.clone(),
            active_device_token: self.active_device_token.clone(),
        }
    }
}

impl AppSettings {
    /// Whether settings are kept, given what looking for the settings file
    /// gave: whether the file is there, or nothing where its place could not
    /// be determined. Settings are kept only where the file was found.
    pub fn settings_exist(found: Option<bool>) -> (kept: bool)
        ensures
            kept == (found == Some(true)),
    {
        match found {
            Some(there) => there,
            None => false,
        }
    }
}

} // verus!
