use lemnux::api::{
    api_base_url, bearer_token, federated_instances_url, login_url, post_list_url, Instance,
    ListingType, PostsList, SortType,
};
use lemnux::app::{App, AppAction, Lemnux, Message, Pages, TabId};
use lemnux::feed;
use lemnux::panel;
use lemnux::settings::{Settings, User};
use lemnux::theme::{AppTheme, Preferences};

fn instance(domain: &str) -> Instance {
    Instance {
        id: 7,
        domain: domain.to_string(),
        published: "2024-01-01T00:00:00Z".to_string(),
        updated: None,
        software: None,
        version: None,
        federation_state: None,
    }
}

fn loaded_shell() -> App {
    let (mut app, actions) = App::new();
    assert!(matches!(actions[..], [AppAction::StartLoad]));
    let shell = Lemnux::new(AppTheme::SolarizedDark, vec![instance("lemmy.ml")]);
    let actions = app.update(Message::Loaded(shell));
    // Installing the shell starts the first page load.
    assert_eq!(actions.len(), 1);
    match &actions[0] {
        AppAction::Feed(feed::Action::FetchPage { generation, scope, cursor }) => {
            assert_eq!(*generation, 1);
            assert!(matches!(scope.type_, ListingType::All));
            assert!(cursor.is_none());
        }
        other => panic!("unexpected action {:?}", other),
    }
    app
}

#[test]
fn bootstrap_loads_and_fetches_first_page() {
    let app = loaded_shell();
    match app {
        App::Loaded(shell) => {
            assert!(matches!(shell.active_tab, TabId::All));
            assert!(matches!(shell.page, Pages::Posts));
            assert!(matches!(shell.feed.state, feed::FeedState::Fetching { .. }));
        }
        App::Loading => panic!("the shell should be loaded"),
    }
}

#[test]
fn selecting_a_posts_tab_changes_the_feed_scope() {
    let mut app = loaded_shell();
    let actions = app.update(Message::TabSelected(TabId::Local));
    assert_eq!(actions.len(), 1);
    match &actions[0] {
        AppAction::Feed(feed::Action::FetchPage { generation, scope, cursor }) => {
            assert_eq!(*generation, 2);
            assert!(matches!(scope.type_, ListingType::Local));
            assert!(cursor.is_none());
        }
        other => panic!("unexpected action {:?}", other),
    }
    match app {
        App::Loaded(shell) => {
            assert!(matches!(shell.active_tab, TabId::Local));
            assert!(matches!(shell.feed.scope.type_, ListingType::Local));
        }
        App::Loading => panic!("the shell should be loaded"),
    }
}

#[test]
fn opening_settings_reads_the_stored_panel_state() {
    let mut app = loaded_shell();
    let actions = app.update(Message::TabSelected(TabId::Settings));
    assert!(matches!(actions[..], [AppAction::ReadPanelState]));

    let actions = app.update(Message::SettingsLoaded { user: None, theme: None });
    assert!(actions.is_empty());
    match app {
        App::Loaded(shell) => match shell.page {
            Pages::Settings(panel) => {
                assert_eq!(panel.instances_to_search.len(), 1);
                assert_eq!(panel.instances_to_search[0].domain, "lemmy.ml");
                assert!(panel.user.is_none());
                assert!(matches!(panel.user_theme, AppTheme::Light));
            }
            Pages::Posts => panic!("the settings page should be shown"),
        },
        App::Loading => panic!("the shell should be loaded"),
    }
}

#[test]
fn stale_panel_state_is_ignored_off_the_settings_tab() {
    let mut app = loaded_shell();
    let actions = app.update(Message::SettingsLoaded { user: None, theme: None });
    assert!(actions.is_empty());
    match app {
        App::Loaded(shell) => assert!(matches!(shell.page, Pages::Posts)),
        App::Loading => panic!("the shell should be loaded"),
    }
}

#[test]
fn choosing_a_theme_recolors_the_shell() {
    let mut app = loaded_shell();
    app.update(Message::TabSelected(TabId::Settings));
    app.update(Message::SettingsLoaded { user: None, theme: None });
    let actions = app.update(Message::Settings(panel::Message::SetTheme(AppTheme::Dracula)));
    assert_eq!(actions.len(), 1);
    match &actions[0] {
        AppAction::Panel(panel::Action::StorePreferences(prefs)) => {
            assert!(matches!(prefs.theme, AppTheme::Dracula));
        }
        other => panic!("unexpected action {:?}", other),
    }
    match app {
        App::Loaded(shell) => assert!(matches!(shell.theme, AppTheme::Dracula)),
        App::Loading => panic!("the shell should be loaded"),
    }
}

#[test]
fn panel_events_off_the_settings_page_are_ignored() {
    let mut app = loaded_shell();
    let actions = app.update(Message::Settings(panel::Message::Login));
    assert!(actions.is_empty());
}

#[test]
fn posts_list_uses_the_fixed_page_size() {
    let query = PostsList::new(Some("abc123".to_string()));
    assert!(matches!(query.type_, Some(ListingType::Local)));
    assert!(matches!(query.sort, Some(SortType::Hot)));
    assert_eq!(query.limit, Some(20));
    assert_eq!(query.page, None);
    assert_eq!(query.saved_only, Some(false));
    assert_eq!(query.liked_only, Some(false));
    assert_eq!(query.disliked_only, Some(false));
    assert_eq!(query.page_cursor.as_deref(), Some("abc123"));
}

#[test]
fn scoped_query_carries_filter_and_sort() {
    let scope = lemnux::api::ListingScope { type_: ListingType::Subscribed, sort: SortType::New };
    let query = PostsList::for_scope(scope, None);
    assert!(matches!(query.type_, Some(ListingType::Subscribed)));
    assert!(matches!(query.sort, Some(SortType::New)));
    assert!(query.page_cursor.is_none());
}

#[test]
fn request_urls_compose_as_documented() {
    assert_eq!(api_base_url(true, &None), "https://lemmy.ml/api/v3");
    let chosen = Some(instance("example.org"));
    assert_eq!(api_base_url(false, &chosen), "http://example.org/api/v3");
    let base = api_base_url(true, &chosen);
    assert_eq!(post_list_url(&base), "https://example.org/api/v3/post/list");
    assert_eq!(login_url(&base), "https://example.org/api/v3/user/login");
    assert_eq!(
        federated_instances_url(&base),
        "https://example.org/api/v3/federated_instances"
    );
    assert_eq!(bearer_token("tok"), "Bearer tok");
}

#[test]
fn theme_catalog_lists_every_theme_once() {
    let themes = AppTheme::to_vec();
    assert_eq!(themes.len(), 21);
    assert!(matches!(themes[0], AppTheme::Light));
    assert!(matches!(themes[5], AppTheme::SolarizedDark));
    assert!(matches!(themes[20], AppTheme::Oxocarbon));
}

#[test]
fn theme_labels_match_the_interface_names() {
    assert_eq!(AppTheme::SolarizedDark.label(), "Solarized Dark");
    assert_eq!(AppTheme::CatppuccinMocha.label(), "Catppuccin Mocha");
    // The nightfly theme has always been listed under this name.
    assert_eq!(AppTheme::Nightfly.label(), "Nightly");
}

#[test]
fn preferences_start_on_the_default_theme() {
    let mut prefs = Preferences::new();
    assert!(matches!(prefs.theme, AppTheme::SolarizedDark));
    prefs.set_theme(AppTheme::Moonfly);
    assert!(matches!(prefs.theme, AppTheme::Moonfly));
    assert!(matches!(Preferences::default().theme, AppTheme::SolarizedDark));
}

#[test]
fn settings_merge_takes_one_field_from_each_record() {
    let user_record = Settings {
        user: Some(User::new("alice".to_string(), None, true)),
        instance: Some(instance("wrong.example")),
        preferences: None,
    };
    let instance_record = Settings {
        user: None,
        instance: Some(instance("example.org")),
        preferences: None,
    };
    let preferences_record = Settings {
        user: None,
        instance: None,
        preferences: Some(Preferences { theme: AppTheme::Nord }),
    };
    let merged = Settings::new(user_record, instance_record, preferences_record);
    assert_eq!(merged.user.unwrap().username, "alice");
    assert_eq!(merged.instance.unwrap().domain, "example.org");
    assert!(matches!(merged.preferences.unwrap().theme, AppTheme::Nord));
}

#[test]
fn new_user_starts_on_the_default_theme() {
    let user = User::new("alice".to_string(), None, false);
    assert_eq!(user.username, "alice");
    assert!(!user.is_logged);
    assert!(user.jwt.is_none());
    assert!(matches!(user.app_theme, AppTheme::SolarizedDark));
}

#[test]
fn instance_label_is_its_domain() {
    assert_eq!(instance("example.org").label(), "example.org");
}
