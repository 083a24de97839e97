//! The settings that the overlay keeps in its file, and what each is where
//! the file does not say.

use crate::json::{get, is_object, json_tree, JsonTree};
use crate::text::lemma_filter_take_step;
use serde_json::Value;
use vstd::prelude::*;
use vstd::string::*;

verus! {

/// A setting of the overlay.
#[derive(Debug, Clone, Copy, PartialEq, Eq, Structural)]
pub enum Setting {
    Client,
    CustomClientPath,
    NeverMinimize,
    SecondsToMinimize,
    AutoManagePlayers,
    StatsType,
    WindowScale,
}

/// The value of a setting.
#[derive(Debug, Clone, PartialEq, Eq)]
pub enum SettingValue {
    Integer(i64),
    Text(String),
    Flag(bool),
    /// A factor, in hundredths.
    Hundredths(u64),
}

/// A `SettingValue` as plain values: each string as its characters.
pub enum SettingValueView {
    Integer(int),
    Text(Seq<char>),
    Flag(bool),
    Hundredths(int),
}

impl View for SettingValue {
    type V = SettingValueView;

    open spec fn view(&self) -> SettingValueView {
        match self {
            SettingValue::Integer(n) => SettingValueView::Integer(*n as int),
            SettingValue::Text(text) => SettingValueView::Text(text@),
            SettingValue::Flag(flag) => SettingValueView::Flag(*flag),
            SettingValue::Hundredths(n) => SettingValueView::Hundredths(*n as int),
        }
    }
}

impl Setting {
    /// The name of the setting in the file.
    pub open spec fn key(self) -> Seq<char> {
        match self {
            Setting::Client => "client"@,
            Setting::CustomClientPath => "custom_client_path"@,
            Setting::NeverMinimize => "never_minimize"@,
            Setting::SecondsToMinimize => "seconds_to_minimize"@,
            Setting::AutoManagePlayers => "auto_manage_players"@,
            Setting::StatsType => "stats_type"@,
            Setting::WindowScale => "window_scale"@,
        }
    }

    /// What a new file holds for the setting: the default client without a
    /// custom path, a window that is minimized twelve seconds after a list
    /// was loaded, players added and removed as the chat tells, the
    /// statistics of all modes, and a window of its natural size.
    pub open spec fn default_view(self) -> SettingValueView {
        match self {
            Setting::Client => SettingValueView::Integer(0),
            Setting::CustomClientPath => SettingValueView::Text(""@),
            Setting::NeverMinimize => SettingValueView::Flag(false),
            Setting::SecondsToMinimize => SettingValueView::Integer(12),
            Setting::AutoManagePlayers => SettingValueView::Flag(true),
            Setting::StatsType => SettingValueView::Text("Bedwars Geral"@),
            Setting::WindowScale => SettingValueView::Hundredths(100),
        }
    }

    /// The name of the setting in the file.
    pub fn name(&self) -> (name: &'static str)
        ensures
            name@ == self.key(),
    {
        match self {
            Setting::Client => "client",
            Setting::CustomClientPath => "custom_client_path",
            Setting::NeverMinimize => "never_minimize",
            Setting::SecondsToMinimize => "seconds_to_minimize",
            Setting::AutoManagePlayers => "auto_manage_players",
            Setting::StatsType => "stats_type",
            Setting::WindowScale => "window_scale",
        }
    }

    /// What a new file holds for the setting.
    pub fn default_value(&self) -> (value: SettingValue)
        ensures
            value@ == self.default_view(),
    {
        match self {
            Setting::Client => SettingValue::Integer(0),
            Setting::CustomClientPath => SettingValue::Text(String::from_str("")),
            Setting::NeverMinimize => SettingValue::Flag(false),
            Setting::SecondsToMinimize => SettingValue::Integer(12),
            Setting::AutoManagePlayers => SettingValue::Flag(true),
            Setting::StatsType => SettingValue::Text(String::from_str("Bedwars Geral")),
            Setting::WindowScale => SettingValue::Hundredths(100),
        }
    }

    /// Every setting, in the order of the file.
    pub open spec fn all() -> Seq<Setting> {
        seq![
            Setting::Client,
            Setting::CustomClientPath,
            Setting::NeverMinimize,
            Setting::SecondsToMinimize,
            Setting::AutoManagePlayers,
            Setting::StatsType,
            Setting::WindowScale,
        ]
    }

    /// Every setting, in the order of the file.
    pub fn list() -> (settings: Vec<Setting>)
        ensures
            settings@ == Setting::all(),
    {
        let mut settings: Vec<Setting> = Vec::new();
        settings.push(Setting::Client);
        settings.push(Setting::CustomClientPath);
        settings.push(Setting::NeverMinimize);
        settings.push(Setting::SecondsToMinimize);
        settings.push(Setting::AutoManagePlayers);
        settings.push(Setting::StatsType);
        settings.push(Setting::WindowScale);
        assert(settings@ =~= Setting::all());
        settings
    }
}

/// The settings that a document lacks, in the order of the file. A document
/// that is no object lacks none: there is nowhere to put them.
pub open spec fn missing_in(config: JsonTree) -> Seq<Setting> {
    if config is Object {
        Setting::all().filter(|setting: Setting| !config.has_member(setting.key()))
    } else {
        Seq::empty()
    }
}

/// The settings that a document lacks, in the order of the file.
pub fn missing_settings(config: &Value) -> (missing: Vec<Setting>)
    ensures
        missing@ == missing_in(json_tree(*config)),
{
    let mut missing: Vec<Setting> = Vec::new();
    if !is_object(config) {
        return missing;
    }
    let all = Setting::list();
    let ghost lacks = |setting: Setting| !json_tree(*config).has_member(setting.key());
    let mut i: usize = 0;
    proof {
        reveal(Seq::filter);
        assert(all@.take(0).filter(lacks) =~= Seq::<Setting>::empty());
    }
    while i < all.len()
        invariant
            i <= all.len(),
            all@ == Setting::all(),
            lacks == |setting: Setting| !json_tree(*config).has_member(setting.key()),
            missing@ == all@.take(i as int).filter(lacks),
        decreases all.len() - i,
    {
        proof {
            lemma_filter_take_step(all@, lacks, i as int);
        }
        if get(config, all[i].name()).is_none() {
            missing.push(all[i]);
        }
        i += 1;
    }
    assert(all@.take(i as int) =~= all@);
    missing
}

} // verus!
