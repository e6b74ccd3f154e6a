//! The application's configuration as the capture engine and its callers read
//! it, and the cache that keeps the file from being read more than once.

use vstd::prelude::*;

verus! {

/// The user's settings. A field that the configuration file does not set is
/// `None`.
#[derive(Debug, PartialEq, Eq)]
pub struct Config {
    pub hotkey: Option<String>,
    pub ocr_hotkey: Option<String>,
    pub writing_hotkey: Option<String>,
    pub writing_newline_hotkey: Option<String>,
    pub restore_previous_position: Option<bool>,
    pub always_show_icons: Option<bool>,
    pub allow_using_clipboard_when_selected_text_not_available: Option<bool>,
    pub automatic_check_for_updates: Option<bool>,
    pub hide_the_icon_in_the_dock: Option<bool>,
}

/// The mathematical value of a [`Config`].
pub struct ConfigModel {
    pub hotkey: Option<Seq<char>>,
    pub ocr_hotkey: Option<Seq<char>>,
    pub writing_hotkey: Option<Seq<char>>,
    pub writing_newline_hotkey: Option<Seq<char>>,
    pub restore_previous_position: Option<bool>,
    pub always_show_icons: Option<bool>,
    pub allow_using_clipboard_when_selected_text_not_available: Option<bool>,
    pub automatic_check_for_updates: Option<bool>,
    pub hide_the_icon_in_the_dock: Option<bool>,
}

/// The view of an optional text.
pub open spec fn setting_view(setting: Option<String>) -> Option<Seq<char>> {
    match setting {
        Some(text) => Some(text@),
        None => None,
    }
}

/// A copy of an optional text.
fn clone_setting(setting: &Option<String>) -> (r: Option<String>)
    ensures
        setting_view(r) == setting_view(*setting),
{
    match setting {
        Some(text) => Some(text.clone()),
        None => None,
    }
}

impl View for Config {
    type V = ConfigModel;

    open spec fn view(&self) -> ConfigModel {
        ConfigModel {
            hotkey: setting_view(self.hotkey),
            ocr_hotkey: setting_view(self.ocr_hotkey),
            writing_hotkey: setting_view(self.writing_hotkey),
            writing_newline_hotkey: setting_view(self.writing_newline_hotkey),
            restore_previous_position: self.restore_previous_position,
            always_show_icons: self.always_show_icons,
            allow_using_clipboard_when_selected_text_not_available:
                self.allow_using_clipboard_when_selected_text_not_available,
            automatic_check_for_updates: self.automatic_check_for_updates,
            hide_the_icon_in_the_dock: self.hide_the_icon_in_the_dock,
        }
    }
}

impl Clone for Config {
    fn clone(&self) -> (r: Self)
        ensures
            r@ == self@,
    {
        Config {
            hotkey: clone_setting(&self.hotkey),
            ocr_hotkey: clone_setting(&self.ocr_hotkey),
            writing_hotkey: clone_setting(&self.writing_hotkey),
            writing_newline_hotkey: clone_setting(&self.writing_newline_hotkey),
            restore_previous_position: self.restore_previous_position,
            always_show_icons: self.always_show_icons,
            allow_using_clipboard_when_selected_text_not_available:
                self.allow_using_clipboard_when_selected_text_not_available,
            automatic_check_for_updates: self.automatic_check_for_updates,
            hide_the_icon_in_the_dock: self.hide_the_icon_in_the_dock,
        }
    }
}

/// The view of an optional configuration.
pub open spec fn cached_view(config: Option<Config>) -> Option<ConfigModel> {
    match config {
        Some(c) => Some(c@),
        None => None,
    }
}

/// The view of a configuration that was loaded, or of the reason why it could
/// not be.
pub open spec fn loaded_view(loaded: Result<Config, String>) -> Result<ConfigModel, Seq<char>> {
    match loaded {
        Ok(c) => Ok(c@),
        Err(reason) => Err(reason@),
    }
}

/// The configuration once loaded, kept for the next reader.
#[derive(Debug)]
pub struct ConfigCache {
    cached: Option<Config>,
}

impl View for ConfigCache {
    type V = Option<ConfigModel>;

    closed spec fn view(&self) -> Option<ConfigModel> {
        cached_view(self.cached)
    }
}

impl ConfigCache {
    /// A cache that holds nothing yet.
    pub fn new() -> (cache: ConfigCache)
        ensures
            cache@ is None,
    {
        ConfigCache { cached: None }
    }

    /// Takes what loading the configuration gave. A configuration is kept and
    /// handed on; a failure is handed on and the cache stays as it is.
    pub fn fill(&mut self, loaded: Result<Config, String>) -> (r: Result<Config, String>)
        ensures
            loaded_view(r) == loaded_view(loaded),
            final(self)@ == match loaded {
                Ok(config) => Some(config@),
                Err(_) => old(self)@,
            },
    {
        match loaded {
            Ok(config) => {
                self.cached = Some(config.clone());
                Ok(config)
            },
            Err(reason) => Err(reason),
        }
    }
}

/// The configuration, if it was loaded before: a copy of what the cache
/// holds, and `None` where the file has to be read first.
pub fn get_config(cache: &ConfigCache) -> (config: Option<Config>)
    ensures
        cached_view(config) == cache@,
{
    match &cache.cached {
        Some(config) => Some(config.clone()),
        None => None,
    }
}

/// Forgets the cached configuration, so that the next reader loads the file.
pub fn clear_config_cache(cache: &mut ConfigCache)
    ensures
        final(cache)@ is None,
{
    cache.cached = None;
}

} // verus!
