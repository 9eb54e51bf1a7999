//! Display themes and the persisted display preferences.

use vstd::prelude::*;

verus! {

use vstd::string::StringExecFns;

/// The catalog of display themes the application offers.
#[derive(Debug, Clone, Copy, PartialEq, Eq, Structural)]
pub enum AppTheme {
    Light,
    Dark,
    Dracula,
    Nord,
    SolarizedLight,
    SolarizedDark,
    GruvboxLight,
    GruvboxDark,
    CatppuccinLatte,
    CatppuccinFrappe,
    CatppuccinMacchiato,
    CatppuccinMocha,
    TokyoNight,
    TokyoNightStorm,
    TokyoNightLight,
    KanagawaWave,
    KanagawaDragon,
    KanagawaLotus,
    Moonfly,
    Nightfly,
    Oxocarbon,
}

/// The themes in the order the theme chooser offers them.
pub open spec fn theme_catalog() -> Seq<AppTheme> {
    seq![
        AppTheme::Light,
        AppTheme::Dark,
        AppTheme::Dracula,
        AppTheme::Nord,
        AppTheme::SolarizedLight,
        AppTheme::SolarizedDark,
        AppTheme::GruvboxLight,
        AppTheme::GruvboxDark,
        AppTheme::CatppuccinLatte,
        AppTheme::CatppuccinFrappe,
        AppTheme::CatppuccinMacchiato,
        AppTheme::CatppuccinMocha,
        AppTheme::TokyoNight,
        AppTheme::TokyoNightStorm,
        AppTheme::TokyoNightLight,
        AppTheme::KanagawaWave,
        AppTheme::KanagawaDragon,
        AppTheme::KanagawaLotus,
        AppTheme::Moonfly,
        AppTheme::Nightfly,
        AppTheme::Oxocarbon,
    ]
}

impl AppTheme {
    /// Every theme, in chooser order.
    pub fn to_vec() -> (themes: Vec<AppTheme>)
        ensures
            themes@ == theme_catalog(),
    {
        let themes: Vec<AppTheme> = vec![
            AppTheme::Light,
            AppTheme::Dark,
            AppTheme::Dracula,
            AppTheme::Nord,
            AppTheme::SolarizedLight,
            AppTheme::SolarizedDark,
            AppTheme::GruvboxLight,
            AppTheme::GruvboxDark,
            AppTheme::CatppuccinLatte,
            AppTheme::CatppuccinFrappe,
            AppTheme::CatppuccinMacchiato,
            AppTheme::CatppuccinMocha,
            AppTheme::TokyoNight,
            AppTheme::TokyoNightStorm,
            AppTheme::TokyoNightLight,
            AppTheme::KanagawaWave,
            AppTheme::KanagawaDragon,
            AppTheme::KanagawaLotus,
            AppTheme::Moonfly,
            AppTheme::Nightfly,
            AppTheme::Oxocarbon,
        ];
        proof {
            assert(themes@ =~= theme_catalog());
        }
        themes
    }

    /// The name a theme goes by in the interface.
    pub open spec fn spec_label(self) -> Seq<char> {
        match self {
            AppTheme::Light => "Light"@,
            AppTheme::Dark => "Dark"@,
            AppTheme::Dracula => "Dracula"@,
            AppTheme::Nord => "Nord"@,
            AppTheme::SolarizedLight => "Solarized Light"@,
            AppTheme::SolarizedDark => "Solarized Dark"@,
            AppTheme::GruvboxLight => "Gruvbox Light"@,
            AppTheme::GruvboxDark => "Gruvbox Dark"@,
            AppTheme::CatppuccinLatte => "Catppuccin Latte"@,
            AppTheme::CatppuccinFrappe => "Catppuccin Frappe"@,
            AppTheme::CatppuccinMacchiato => "Catppuccin Macchiato"@,
            AppTheme::CatppuccinMocha => "Catppuccin Mocha"@,
            AppTheme::TokyoNight => "Tokyo Night"@,
            AppTheme::TokyoNightStorm => "Tokyo Night Storm"@,
            AppTheme::TokyoNightLight => "Tokyo Night Light"@,
            AppTheme::KanagawaWave => "Kanagawa Wave"@,
            AppTheme::KanagawaDragon => "Kanagawa Dragon"@,
            AppTheme::KanagawaLotus => "Kanagawa Lotus"@,
            AppTheme::Moonfly => "Moonfly"@,
            AppTheme::Nightfly => "Nightly"@,
            AppTheme::Oxocarbon => "Oxocarbon"@,
        }
    }

    /// The name a theme goes by in the interface.
    pub fn label(&self) -> (name: String)
        ensures
            name@ == self.spec_label(),
    {
        match self {
            AppTheme::Light => String::from_str("Light"),
            AppTheme::Dark => String::from_str("Dark"),
            AppTheme::Dracula => String::from_str("Dracula"),
            AppTheme::Nord => String::from_str("Nord"),
            AppTheme::SolarizedLight => String::from_str("Solarized Light"),
            AppTheme::SolarizedDark => String::from_str("Solarized Dark"),
            AppTheme::GruvboxLight => String::from_str("Gruvbox Light"),
            AppTheme::GruvboxDark => String::from_str("Gruvbox Dark"),
            AppTheme::CatppuccinLatte => String::from_str("Catppuccin Latte"),
            AppTheme::CatppuccinFrappe => String::from_str("Catppuccin Frappe"),
            AppTheme::CatppuccinMacchiato => String::from_str("Catppuccin Macchiato"),
            AppTheme::CatppuccinMocha => String::from_str("Catppuccin Mocha"),
            AppTheme::TokyoNight => String::from_str("Tokyo Night"),
            AppTheme::TokyoNightStorm => String::from_str("Tokyo Night Storm"),
            AppTheme::TokyoNightLight => String::from_str("Tokyo Night Light"),
            AppTheme::KanagawaWave => String::from_str("Kanagawa Wave"),
            AppTheme::KanagawaDragon => String::from_str("Kanagawa Dragon"),
            AppTheme::KanagawaLotus => String::from_str("Kanagawa Lotus"),
            AppTheme::Moonfly => String::from_str("Moonfly"),
            AppTheme::Nightfly => String::from_str("Nightly"),
            AppTheme::Oxocarbon => String::from_str("Oxocarbon"),
        }
    }
}

/// Persisted display preferences. The embedding program stores a copy in the
/// settings store whenever the theme changes.
#[derive(Debug, Clone, Copy, PartialEq, Eq, Structural)]
pub struct Preferences {
    pub theme: AppTheme,
}

impl Preferences {
    /// Fresh preferences start on the default theme.
    pub fn new() -> (prefs: Preferences)
        ensures
            prefs.theme == AppTheme::SolarizedDark,
    {
        Preferences { theme: AppTheme::SolarizedDark }
    }

    /// Replaces the chosen theme.
    pub fn set_theme(&mut self, theme: AppTheme)
        ensures
            final(self).theme == theme,
    {
        self.theme = theme;
    }
}

impl Default for Preferences {
    fn default() -> (prefs: Self)
        ensures
            prefs.theme == AppTheme::SolarizedDark,
    {
        Preferences::new()
    }
}

} // verus!
