use lemnux::api::Instance;
use lemnux::panel::{Action, Message, Settings};
use lemnux::settings::JWT;
use lemnux::theme::AppTheme;

fn instance(domain: &str) -> Instance {
    Instance {
        id: 1,
        domain: domain.to_string(),
        published: "2024-01-01T00:00:00Z".to_string(),
        updated: None,
        software: Some("lemmy".to_string()),
        version: Some("0.19".to_string()),
        federation_state: None,
    }
}

fn panel() -> Settings {
    Settings::new(vec![instance("lemmy.ml")], None, None)
}

#[test]
fn fresh_panel_starts_clean() {
    let panel = panel();
    assert!(panel.instance.is_none());
    assert!(panel.user_selected_instance.is_none());
    assert!(panel.user.is_none());
    assert_eq!(panel.username_field, "");
    assert_eq!(panel.password_field, "");
    assert!(matches!(panel.user_theme, AppTheme::Light));
    assert_eq!(panel.instances_to_search.len(), 1);
}

#[test]
fn login_with_empty_username_is_not_dispatched() {
    let mut panel = panel();
    panel.update(Message::Password("hunter2".to_string()));
    let action = panel.update(Message::Login);
    assert!(action.is_none());
    assert_eq!(panel.username_field, "");
    assert_eq!(panel.password_field, "hunter2");
    assert!(panel.user.is_none());
}

#[test]
fn login_with_empty_password_is_not_dispatched() {
    let mut panel = panel();
    panel.update(Message::Username("alice".to_string()));
    let action = panel.update(Message::Login);
    assert!(action.is_none());
}

#[test]
fn complete_form_dispatches_login() {
    let mut panel = panel();
    panel.update(Message::Username("alice".to_string()));
    panel.update(Message::Password("hunter2".to_string()));
    let action = panel.update(Message::Login);
    match action {
        Some(Action::DispatchLogin { username_or_email, password }) => {
            assert_eq!(username_or_email, "alice");
            assert_eq!(password, "hunter2");
        }
        other => panic!("unexpected action {:?}", other),
    }
    // Dispatching alone changes nothing in the panel.
    assert_eq!(panel.username_field, "alice");
    assert!(panel.user.is_none());
}

#[test]
fn successful_login_stores_the_user() {
    let mut panel = panel();
    panel.update(Message::Username("alice".to_string()));
    let jwt = JWT {
        token: Some("tok".to_string()),
        registration_created: false,
        verify_email_sent: false,
    };
    let action = panel.update(Message::Logged(Some(jwt)));
    match action {
        Some(Action::StoreUser(user)) => {
            assert_eq!(user.username, "alice");
            assert!(user.is_logged);
            assert_eq!(user.jwt.unwrap().token.as_deref(), Some("tok"));
            assert!(matches!(user.app_theme, AppTheme::SolarizedDark));
        }
        other => panic!("unexpected action {:?}", other),
    }
    let held = panel.user.expect("the panel keeps the session");
    assert_eq!(held.username, "alice");
    assert!(held.is_logged);
}

#[test]
fn logout_clears_session_and_removes_record() {
    let mut panel = panel();
    panel.update(Message::SetInstance(instance("example.org")));
    panel.update(Message::Username("alice".to_string()));
    panel.update(Message::Logged(None));
    let action = panel.update(Message::Logout);
    assert!(matches!(action, Some(Action::RemoveUserRecord)));
    assert!(panel.instance.is_none());
    assert!(panel.user.is_none());
}

#[test]
fn set_instance_commits_and_stores() {
    let mut panel = panel();
    let action = panel.update(Message::SetInstance(instance("example.org")));
    match action {
        Some(Action::StoreInstance(stored)) => assert_eq!(stored.domain, "example.org"),
        other => panic!("unexpected action {:?}", other),
    }
    assert_eq!(panel.instance.unwrap().domain, "example.org");
}

#[test]
fn hovered_instance_is_not_stored() {
    let mut panel = panel();
    let action = panel.update(Message::UserSelectedInstance(instance("example.org")));
    assert!(action.is_none());
    assert!(panel.instance.is_none());
    assert_eq!(panel.user_selected_instance.unwrap().domain, "example.org");
}

#[test]
fn set_theme_updates_and_stores_preferences() {
    let mut panel = panel();
    let action = panel.update(Message::SetTheme(AppTheme::Nord));
    match action {
        Some(Action::StorePreferences(prefs)) => assert!(matches!(prefs.theme, AppTheme::Nord)),
        other => panic!("unexpected action {:?}", other),
    }
    assert!(matches!(panel.user_theme, AppTheme::Nord));
}

#[test]
fn not_found_changes_nothing() {
    let mut panel = panel();
    let action = panel.update(Message::NotFound);
    assert!(action.is_none());
    assert!(panel.instance.is_none());
}
