//! The application shell: tabs, the active page, the theme, and the one
//! feed controller that owns all feed state. Tabs and pages are projections
//! over that state, never owners of duplicate copies of it.

use vstd::prelude::*;

verus! {

use vstd::pervasive::arbitrary;

use crate::api::Instance;
use crate::api::ListingScope;
use crate::api::ListingType;
use crate::api::SortType;
use crate::api::instances_match;
use crate::feed;
use crate::panel;
use crate::settings::User;
use crate::theme::AppTheme;
use crate::theme::theme_catalog;

/// The selectable tabs.
#[derive(Debug, Clone, Copy, PartialEq, Eq, Hash, Structural)]
pub enum TabId {
    All,
    Local,
    Subscribed,
    Settings,
}

/// The page on display. The feed's state lives in the shell's controller,
/// so the posts page carries nothing of its own; the settings page carries
/// the panel.
#[derive(Debug)]
pub enum Pages {
    Posts,
    Settings(panel::Settings),
}

/// The loaded application: active tab, displayed page, chosen theme, the
/// feed controller, and the discovered instances the settings panel offers.
#[derive(Debug)]
pub struct Lemnux {
    pub page: Pages,
    pub active_tab: TabId,
    pub theme: AppTheme,
    pub feed: feed::Posts,
    pub instances: Vec<Instance>,
}

/// The application: still bootstrapping, or loaded.
#[derive(Debug)]
pub enum App {
    Loading,
    Loaded(Lemnux),
}

/// What the application reacts to.
#[derive(Debug)]
pub enum Message {
    /// Bootstrapping finished with this initial state.
    Loaded(Lemnux),
    /// The user selected a tab.
    TabSelected(TabId),
    /// A feed event.
    Posts(feed::Message),
    /// A settings-panel event.
    Settings(panel::Message),
    /// The stored user and theme were read for the settings panel.
    SettingsLoaded { user: Option<User>, theme: Option<AppTheme> },
}

/// The asynchronous work a shell transition asks the embedding program to
/// start.
#[derive(Debug)]
pub enum AppAction {
    /// Bootstrap: read the stored theme, fetch the linked instances, and
    /// report back as a `Loaded` event.
    StartLoad,
    /// Read the stored user and theme and report back as a
    /// `SettingsLoaded` event.
    ReadPanelState,
    /// Work the feed controller asked for.
    Feed(feed::Action),
    /// Work the settings panel asked for.
    Panel(panel::Action),
}

/// The feed scope a posts tab stands for; the settings tab has none.
pub open spec fn spec_tab_scope(tab: TabId) -> Option<ListingScope> {
    match tab {
        TabId::All => Some(ListingScope { type_: ListingType::All, sort: SortType::Hot }),
        TabId::Local => Some(ListingScope { type_: ListingType::Local, sort: SortType::Hot }),
        TabId::Subscribed => Some(
            ListingScope { type_: ListingType::Subscribed, sort: SortType::Hot },
        ),
        TabId::Settings => None,
    }
}

/// The feed scope a posts tab stands for; the settings tab has none.
pub fn tab_scope(tab: TabId) -> (scope: Option<ListingScope>)
    ensures
        scope == spec_tab_scope(tab),
{
    match tab {
        TabId::All => Some(ListingScope { type_: ListingType::All, sort: SortType::Hot }),
        TabId::Local => Some(ListingScope { type_: ListingType::Local, sort: SortType::Hot }),
        TabId::Subscribed => Some(
            ListingScope { type_: ListingType::Subscribed, sort: SortType::Hot },
        ),
        TabId::Settings => None,
    }
}

/// Every action is feed work.
pub open spec fn all_feed(actions: Seq<AppAction>) -> bool {
    forall|i: int| 0 <= i < actions.len() ==> (#[trigger] actions[i]) is Feed
}

/// The feed work inside a run of wrapped feed actions.
pub open spec fn feed_part(actions: Seq<AppAction>) -> Seq<feed::Action> {
    Seq::new(
        actions.len(),
        |i: int|
            match actions[i] {
                AppAction::Feed(action) => action,
                _ => arbitrary(),
            },
    )
}

/// The wrapped form of a panel's action: one `Panel` entry, or nothing.
pub open spec fn wraps_panel(actions: Seq<AppAction>, action: Option<panel::Action>) -> bool {
    match action {
        Some(inner) => actions =~= seq![AppAction::Panel(inner)],
        None => actions.len() == 0,
    }
}

/// The shell stayed as it was and started nothing.
pub open spec fn app_unchanged(pre: App, post: App, actions: Seq<AppAction>) -> bool {
    &&& post == pre
    &&& actions.len() == 0
}

/// What one message does to the shell.
pub open spec fn app_step(pre: App, message: Message, post: App, actions: Seq<AppAction>) -> bool {
    match pre {
        App::Loading => {
            match message {
                Message::Loaded(init) => {
                    &&& post matches App::Loaded(now)
                    &&& now == (Lemnux { feed: now.feed, ..init })
                    &&& all_feed(actions)
                    &&& feed::next_page_step(init.feed, now.feed, feed_part(actions))
                },
                _ => app_unchanged(pre, post, actions),
            }
        },
        App::Loaded(cur) => {
            match message {
                Message::TabSelected(tab) => {
                    match spec_tab_scope(tab) {
                        Some(scope) => {
                            &&& post matches App::Loaded(now)
                            &&& now.active_tab == tab
                            &&& now.page is Posts
                            &&& now.theme == cur.theme
                            &&& now.instances == cur.instances
                            &&& all_feed(actions)
                            &&& feed::scope_change_step(
                                cur.feed,
                                scope,
                                now.feed,
                                feed_part(actions),
                            )
                        },
                        None => {
                            &&& post matches App::Loaded(now)
                            &&& now == (Lemnux { active_tab: TabId::Settings, ..cur })
                            &&& actions =~= seq![AppAction::ReadPanelState]
                        },
                    }
                },
                Message::SettingsLoaded { user, theme } => {
                    if cur.active_tab is Settings {
                        &&& post matches App::Loaded(now)
                        &&& now == (Lemnux { page: now.page, ..cur })
                        &&& now.page matches Pages::Settings(shown)
                        &&& shown.instance is None
                        &&& instances_match(shown.instances_to_search@, cur.instances@)
                        &&& shown.user_selected_instance is None
                        &&& shown.user_theme == (match theme {
                            Some(chosen) => chosen,
                            None => theme_catalog()[0],
                        })
                        &&& shown.username_field@.len() == 0
                        &&& shown.password_field@.len() == 0
                        &&& shown.user == user
                        &&& actions.len() == 0
                    } else {
                        app_unchanged(pre, post, actions)
                    }
                },
                Message::Posts(event) => {
                    &&& post matches App::Loaded(now)
                    &&& now == (Lemnux { feed: now.feed, ..cur })
                    &&& all_feed(actions)
                    &&& feed::step(cur.feed, event, now.feed, feed_part(actions))
                },
                Message::Settings(event) => {
                    match cur.page {
                        Pages::Settings(shown) => {
                            &&& post matches App::Loaded(now)
                            &&& now.active_tab == cur.active_tab
                            &&& now.feed == cur.feed
                            &&& now.instances == cur.instances
                            &&& now.theme == (match event {
                                panel::Message::SetTheme(chosen) => chosen,
                                _ => cur.theme,
                            })
                            &&& now.page matches Pages::Settings(shown_now)
                            &&& exists|action: Option<panel::Action>|
                                panel::panel_step(shown, event, shown_now, action) && wraps_panel(
                                    actions,
                                    action,
                                )
                        },
                        Pages::Posts => app_unchanged(pre, post, actions),
                    }
                },
                Message::Loaded(_) => app_unchanged(pre, post, actions),
            }
        },
    }
}

impl Lemnux {
    /// The loaded shell the bootstrap hands over: the all-scope posts tab is
    /// active, nothing is fetched yet, the stored theme applies, and the
    /// discovered instances are kept for the settings panel.
    pub fn new(theme: AppTheme, instances: Vec<Instance>) -> (shell: Lemnux)
        ensures
            shell.page is Posts,
            shell.active_tab == TabId::All,
            shell.theme == theme,
            shell.feed.scope == (ListingScope { type_: ListingType::All, sort: SortType::Hot }),
            shell.feed.generation == 0,
            shell.feed.state is Idle,
            shell.feed.wf(),
            shell.instances == instances,
    {
        Lemnux {
            page: Pages::Posts,
            active_tab: TabId::All,
            theme,
            feed: feed::Posts::idle(
                ListingScope { type_: ListingType::All, sort: SortType::Hot },
            ),
            instances,
        }
    }
}

impl App {
    /// The shell's internal consistency: a loaded shell holds a consistent
    /// feed controller.
    pub open spec fn wf(self) -> bool {
        match self {
            App::Loaded(now) => now.feed.wf(),
            App::Loading => true,
        }
    }

    /// The loaded shell's feed generation has room to advance.
    pub open spec fn generation_ok(self) -> bool {
        match self {
            App::Loaded(now) => now.feed.generation < u64::MAX,
            App::Loading => true,
        }
    }

    /// A starting application: still bootstrapping, with the bootstrap as
    /// the one action to run.
    pub fn new() -> (started: (App, Vec<AppAction>))
        ensures
            started.0 is Loading,
            started.0.wf(),
            started.1@ =~= seq![AppAction::StartLoad],
    {
        let mut actions: Vec<AppAction> = Vec::new();
        actions.push(AppAction::StartLoad);
        (App::Loading, actions)
    }

    /// Applies one message and returns the asynchronous work to start.
    pub fn update(&mut self, message: Message) -> (actions: Vec<AppAction>)
        requires
            old(self).wf(),
            old(self).generation_ok(),
            message matches Message::Loaded(init) ==> init.feed.wf() && init.feed.generation
                < u64::MAX,
            message matches Message::Posts(feed::Message::PostStatus(
                feed::PostFetching::LoadedResponse { result: Ok(raw), .. },
            )) ==> raw.wf(),
        ensures
            final(self).wf(),
            app_step(*old(self), message, *final(self), actions@),
    {
        match self {
            App::Loading => {
                match message {
                    Message::Loaded(mut init) => {
                        let feed_actions = init.feed.update(
                            feed::Message::PostStatus(feed::PostFetching::NextPage),
                        );
                        let actions = wrap_feed_actions(feed_actions);
                        *self = App::Loaded(init);
                        actions
                    },
                    _ => Vec::new(),
                }
            },
            App::Loaded(now) => {
                match message {
                    Message::TabSelected(tab) => {
                        match tab_scope(tab) {
                            Some(scope) => {
                                now.active_tab = tab;
                                now.page = Pages::Posts;
                                let feed_actions = now.feed.change_scope(scope);
                                wrap_feed_actions(feed_actions)
                            },
                            None => {
                                now.active_tab = TabId::Settings;
                                let mut actions: Vec<AppAction> = Vec::new();
                                actions.push(AppAction::ReadPanelState);
                                actions
                            },
                        }
                    },
                    Message::SettingsLoaded { user, theme } => {
                        if matches!(now.active_tab, TabId::Settings) {
                            let offered = crate::api::duplicate_instances(&now.instances);
                            now.page = Pages::Settings(panel::Settings::new(offered, user, theme));
                            Vec::new()
                        } else {
                            Vec::new()
                        }
                    },
                    Message::Posts(event) => {
                        let feed_actions = now.feed.update(event);
                        wrap_feed_actions(feed_actions)
                    },
                    Message::Settings(event) => {
                        match &mut now.page {
                            Pages::Settings(shown) => {
                                if let panel::Message::SetTheme(chosen) = &event {
                                    now.theme = *chosen;
                                }
                                let action = shown.update(event);
                                let ghost witness = action;
                                let actions = wrap_panel_action(action);
                                proof {
                                    assert(wraps_panel(actions@, witness));
                                }
                                actions
                            },
                            Pages::Posts => Vec::new(),
                        }
                    },
                    Message::Loaded(_) => Vec::new(),
                }
            },
        }
    }
}

/// Wraps a panel's action, if any, for the shell.
fn wrap_panel_action(action: Option<panel::Action>) -> (actions: Vec<AppAction>)
    ensures
        wraps_panel(actions@, action),
{
    match action {
        Some(inner) => {
            let mut actions: Vec<AppAction> = Vec::new();
            actions.push(AppAction::Panel(inner));
            actions
        },
        None => Vec::new(),
    }
}

/// Wraps the feed controller's actions for the shell, keeping their order.
fn wrap_feed_actions(feed_actions: Vec<feed::Action>) -> (actions: Vec<AppAction>)
    ensures
        actions@.len() == feed_actions@.len(),
        forall|i: int| 0 <= i < actions@.len() ==> actions@[i] == AppAction::Feed(
            #[trigger] feed_actions@[i],
        ),
        all_feed(actions@),
        feed_part(actions@) =~= feed_actions@,
{
    let ghost given = feed_actions@;
    let mut rest = feed_actions;
    let mut actions: Vec<AppAction> = Vec::new();
    while rest.len() > 0
        invariant
            actions@.len() + rest@.len() == given.len(),
            rest@ =~= given.subrange(actions@.len() as int, given.len() as int),
            forall|i: int| 0 <= i < actions@.len() ==> actions@[i] == AppAction::Feed(
                #[trigger] given[i],
            ),
        decreases rest@.len(),
    {
        let next = rest.remove(0);
        actions.push(AppAction::Feed(next));
    }
    proof {
        assert forall|i: int| 0 <= i < actions@.len() implies (#[trigger] actions@[i]) is Feed by {
            assert(actions@[i] == AppAction::Feed(given[i]));
        }
        assert(feed_part(actions@) =~= given);
    }
    actions
}

} // verus!
