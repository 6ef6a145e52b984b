//! The persisted configuration record and the two operations that change it:
//! logging in (store a trimmed token) and logging out (clear the token).

use vstd::prelude::*;

verus! {

/// The persisted configuration: a format version and the stored personal
/// access token, empty when nobody is logged in.
pub struct AppConfig {
    pub version: u8,
    pub personal_access_token: String,
}

impl Default for AppConfig {
    /// A fresh record: format version 0 and no stored token.
    fn default() -> (r: Self)
        ensures
            r.version == 0,
            r.personal_access_token@ == Seq::<char>::empty(),
    {
        AppConfig { version: 0, personal_access_token: String::new() }
    }
}

impl AppConfig {
    /// The record after a login: the entered line, with surrounding
    /// whitespace removed, becomes the stored token; the version is kept.
    pub fn with_login(&self, entered: &str) -> (r: AppConfig)
        ensures
            r.version == self.version,
            r.personal_access_token@ == crate::text::trimmed(entered@),
    {
        AppConfig {
            version: self.version,
            personal_access_token: crate::text::trim_text(entered),
        }
    }

    /// The record after a logout: the stored token is cleared, the version
    /// is kept.
    pub fn with_logout(&self) -> (r: AppConfig)
        ensures
            r.version == self.version,
            r.personal_access_token@ == Seq::<char>::empty(),
    {
        AppConfig { version: self.version, personal_access_token: String::new() }
    }
}

} // verus!
