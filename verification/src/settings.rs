//! The locally persisted records: session token, user, and the settings
//! bundle the embedding program reads from and writes to its store.

use vstd::prelude::*;

verus! {

use crate::api::Instance;
use crate::api::option_string_matches;
use crate::theme::AppTheme;
use crate::theme::Preferences;

/// A session token returned by the login endpoint, with the registration
/// flags that came with it.
#[derive(Debug, Default, Clone)]
pub struct JWT {
    pub token: Option<String>,
    pub registration_created: bool,
    pub verify_email_sent: bool,
}

/// Whether two tokens carry the same data, compared by content.
pub open spec fn jwt_matches(a: JWT, b: JWT) -> bool {
    &&& option_string_matches(a.token, b.token)
    &&& a.registration_created == b.registration_created
    &&& a.verify_email_sent == b.verify_email_sent
}

/// Whether two optional tokens carry the same data.
pub open spec fn option_jwt_matches(a: Option<JWT>, b: Option<JWT>) -> bool {
    match (a, b) {
        (Some(x), Some(y)) => jwt_matches(x, y),
        (None, None) => true,
        _ => false,
    }
}

/// The local identity: username, session token when logged in, and the
/// theme the user chose.
#[derive(Debug, Clone)]
pub struct User {
    pub username: String,
    pub jwt: Option<JWT>,
    pub is_logged: bool,
    pub app_theme: AppTheme,
}

impl User {
    /// A user record starts on the default theme.
    pub fn new(username: String, jwt: Option<JWT>, is_logged: bool) -> (user: User)
        ensures
            user.username == username,
            user.jwt == jwt,
            user.is_logged == is_logged,
            user.app_theme == AppTheme::SolarizedDark,
    {
        User { username, jwt, is_logged, app_theme: AppTheme::SolarizedDark }
    }
}

impl JWT {
    /// A content-equal copy of the token record.
    pub fn duplicate(&self) -> (copy: JWT)
        ensures
            jwt_matches(copy, *self),
    {
        JWT {
            token: crate::api::clone_option_string(&self.token),
            registration_created: self.registration_created,
            verify_email_sent: self.verify_email_sent,
        }
    }
}

impl User {
    /// A content-equal copy of the user record.
    pub fn duplicate(&self) -> (copy: User)
        ensures
            user_matches(copy, *self),
    {
        User {
            username: self.username.clone(),
            jwt: match &self.jwt {
                Some(token) => Some(token.duplicate()),
                None => None,
            },
            is_logged: self.is_logged,
            app_theme: self.app_theme,
        }
    }
}

/// Whether two user records carry the same data, compared by content.
pub open spec fn user_matches(a: User, b: User) -> bool {
    &&& a.username@ == b.username@
    &&& option_jwt_matches(a.jwt, b.jwt)
    &&& a.is_logged == b.is_logged
    &&& a.app_theme == b.app_theme
}

/// The settings bundle, as one record of the local store. The store keeps
/// three copies under different names; each copy carries one meaningful
/// field.
#[derive(Debug, Default, Clone)]
pub struct Settings {
    pub user: Option<User>,
    pub instance: Option<Instance>,
    pub preferences: Option<Preferences>,
}

impl Settings {
    /// Merges the three stored records, taking from each the field it is
    /// responsible for.
    pub fn new(
        user_record: Settings,
        instance_record: Settings,
        preferences_record: Settings,
    ) -> (merged: Settings)
        ensures
            merged.user == user_record.user,
            merged.instance == instance_record.instance,
            merged.preferences == preferences_record.preferences,
    {
        Settings {
            user: user_record.user,
            instance: instance_record.instance,
            preferences: preferences_record.preferences,
        }
    }
}

} // verus!
