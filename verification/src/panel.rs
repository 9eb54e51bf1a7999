//! The settings panel: a reducer over instance selection, theme choice and
//! the login form. It never touches the settings store or the network
//! itself: each transition returns at most one action for the embedding
//! program to perform.

use vstd::prelude::*;

verus! {

use crate::api::Instance;
use crate::api::instance_matches;
use crate::settings::JWT;
use crate::settings::User;
use crate::settings::option_jwt_matches;
use crate::theme::AppTheme;
use crate::theme::Preferences;
use crate::theme::theme_catalog;

/// The state of the settings panel.
#[derive(Debug)]
pub struct Settings {
    /// The instance the user committed to, once one was set.
    pub instance: Option<Instance>,
    /// The instances the chooser offers.
    pub instances_to_search: Vec<Instance>,
    /// The instance the user is hovering over, not yet committed.
    pub user_selected_instance: Option<Instance>,
    /// The theme the chooser shows as current.
    pub user_theme: AppTheme,
    /// The login form's username field.
    pub username_field: String,
    /// The login form's password field.
    pub password_field: String,
    /// The session, when one is stored.
    pub user: Option<User>,
}

/// What the settings panel reacts to.
#[derive(Debug)]
pub enum Message {
    NotFound,
    SetInstance(Instance),
    UserSelectedInstance(Instance),
    SetTheme(AppTheme),
    Username(String),
    Password(String),
    Login,
    Logged(Option<JWT>),
    Logout,
}

/// The work a panel transition asks the embedding program to perform.
#[derive(Debug)]
pub enum Action {
    /// Persist the committed instance in the settings store.
    StoreInstance(Instance),
    /// Persist the chosen display preferences.
    StorePreferences(Preferences),
    /// Send one login request and report the outcome back as a `Logged`
    /// event carrying the returned token, if any.
    DispatchLogin { username_or_email: String, password: String },
    /// Persist the freshly logged-in user in the settings store.
    StoreUser(User),
    /// Remove the persisted user record from the settings store.
    RemoveUserRecord,
}

/// Whether the login form is complete: both fields non-empty. Only then is
/// a login request dispatched.
pub open spec fn login_form_complete(panel: Settings) -> bool {
    &&& panel.username_field@.len() > 0
    &&& panel.password_field@.len() > 0
}

/// The user record a successful login stores: the form's username, the
/// returned token, the logged-in flag set, the default theme.
pub open spec fn logged_user_ok(user: User, username: String, jwt: Option<JWT>) -> bool {
    &&& user.username@ == username@
    &&& option_jwt_matches(user.jwt, jwt)
    &&& user.is_logged == true
    &&& user.app_theme == AppTheme::SolarizedDark
}

/// What one message does to the panel and which action it returns.
pub open spec fn panel_step(
    pre: Settings,
    message: Message,
    post: Settings,
    action: Option<Action>,
) -> bool {
    match message {
        Message::NotFound => post == pre && action is None,
        Message::SetInstance(inst) => {
            &&& post == (Settings { instance: post.instance, ..pre })
            &&& post.instance == Some(inst)
            &&& action matches Some(Action::StoreInstance(stored)) && instance_matches(
                stored,
                inst,
            )
        },
        Message::UserSelectedInstance(inst) => {
            &&& post == (Settings { user_selected_instance: post.user_selected_instance, ..pre })
            &&& post.user_selected_instance == Some(inst)
            &&& action is None
        },
        Message::SetTheme(theme) => {
            &&& post == (Settings { user_theme: theme, ..pre })
            &&& action == Some(Action::StorePreferences(Preferences { theme }))
        },
        Message::Username(text) => {
            &&& post == (Settings { username_field: text, ..pre })
            &&& action is None
        },
        Message::Password(text) => {
            &&& post == (Settings { password_field: text, ..pre })
            &&& action is None
        },
        Message::Login => {
            &&& post == pre
            &&& if login_form_complete(pre) {
                action matches Some(Action::DispatchLogin { username_or_email, password })
                    && username_or_email@ == pre.username_field@ && password@
                    == pre.password_field@
            } else {
                action is None
            }
        },
        Message::Logged(jwt) => {
            &&& post == (Settings { user: post.user, ..pre })
            &&& post.user matches Some(user) && logged_user_ok(user, pre.username_field, jwt)
            &&& action matches Some(Action::StoreUser(stored)) && logged_user_ok(
                stored,
                pre.username_field,
                jwt,
            )
        },
        Message::Logout => {
            &&& post == (Settings { instance: None, user: None, ..pre })
            &&& action == Some(Action::RemoveUserRecord)
        },
    }
}

impl Settings {
    /// A fresh panel over the discovered instances: nothing committed, empty
    /// login form, the stored user and theme carried in (the first theme of
    /// the catalog when no stored theme could be read).
    pub fn new(instances: Vec<Instance>, user: Option<User>, user_theme: Option<AppTheme>) -> (panel:
        Settings)
        ensures
            panel.instance is None,
            panel.instances_to_search == instances,
            panel.user_selected_instance is None,
            panel.user_theme == (match user_theme {
                Some(theme) => theme,
                None => theme_catalog()[0],
            }),
            panel.username_field@.len() == 0,
            panel.password_field@.len() == 0,
            panel.user == user,
    {
        let chosen = match user_theme {
            Some(theme) => theme,
            None => AppTheme::Light,
        };
        Settings {
            instance: None,
            instances_to_search: instances,
            user_selected_instance: None,
            user_theme: chosen,
            username_field: String::new(),
            password_field: String::new(),
            user,
        }
    }

    /// Applies one message and returns the action to perform, if any.
    pub fn update(&mut self, message: Message) -> (action: Option<Action>)
        ensures
            panel_step(*old(self), message, *final(self), action),
    {
        match message {
            Message::NotFound => None,
            Message::SetInstance(inst) => {
                let stored = inst.duplicate();
                self.instance = Some(inst);
                Some(Action::StoreInstance(stored))
            },
            Message::UserSelectedInstance(inst) => {
                self.user_selected_instance = Some(inst);
                None
            },
            Message::SetTheme(theme) => {
                self.user_theme = theme;
                Some(Action::StorePreferences(Preferences { theme }))
            },
            Message::Username(text) => {
                self.username_field = text;
                None
            },
            Message::Password(text) => {
                self.password_field = text;
                None
            },
            Message::Login => {
                if !self.username_field.as_str().is_empty() && !self.password_field.as_str()
                    .is_empty() {
                    Some(
                        Action::DispatchLogin {
                            username_or_email: self.username_field.clone(),
                            password: self.password_field.clone(),
                        },
                    )
                } else {
                    None
                }
            },
            Message::Logged(jwt) => {
                let user = User::new(self.username_field.clone(), jwt, true);
                let stored = user.duplicate();
                self.user = Some(user);
                Some(Action::StoreUser(stored))
            },
            Message::Logout => {
                self.instance = None;
                self.user = None;
                Some(Action::RemoveUserRecord)
            },
        }
    }
}

/// An incomplete login form never dispatches a request: with an empty
/// username (or password) the panel stays exactly as it was and no network
/// call starts.
pub proof fn lemma_incomplete_login_not_dispatched(
    pre: Settings,
    post: Settings,
    action: Option<Action>,
)
    requires
        panel_step(pre, Message::Login, post, action),
        pre.username_field@.len() == 0 || pre.password_field@.len() == 0,
    ensures
        post == pre,
        action is None,
{
}

} // verus!
