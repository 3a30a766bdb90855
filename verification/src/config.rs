use crate::text::{is_space, trim, trimmed};
use vstd::prelude::*;

verus! {

/// The qualifier under which the directory of the settings is found among those of the user.
pub const QUALIFIER: &'static str = "com";

/// The vendor under which that directory is found.
pub const VENDOR: &'static str = "resend";

/// The application under which that directory is found.
pub const APPLICATION: &'static str = "rusend";

/// The name of the settings file in that directory.
pub const CREDENTIALS_FILE: &'static str = "credentials";

/// The stored settings: the API key and the default addresses.
///
/// An empty `api_key` means that no key is set.
#[derive(Clone, Debug, PartialEq, Eq)]
pub struct AppConfig {
    pub api_key: String,
    pub default_from: Option<String>,
    pub default_to: Option<String>,
}

/// The mathematical value of an [`AppConfig`].
pub struct AppConfigView {
    pub api_key: Seq<char>,
    pub default_from: Option<Seq<char>>,
    pub default_to: Option<Seq<char>>,
}

impl DeepView for AppConfig {
    type V = AppConfigView;

    open spec fn deep_view(&self) -> AppConfigView {
        AppConfigView {
            api_key: self.api_key@,
            default_from: self.default_from.deep_view(),
            default_to: self.default_to.deep_view(),
        }
    }
}

/// What was found where the settings are kept.
#[derive(Clone, Debug, PartialEq, Eq)]
pub enum ConfigFile {
    /// There is no file.
    Missing,
    /// There is a file with this `content`; `parsed` is what it holds when read as a JSON
    /// document of the settings, or `None` when it is no such document.
    Present { content: String, parsed: Option<AppConfig> },
}

/// The mathematical value of a [`ConfigFile`].
pub enum ConfigFileView {
    Missing,
    Present { content: Seq<char>, parsed: Option<AppConfigView> },
}

impl DeepView for ConfigFile {
    type V = ConfigFileView;

    open spec fn deep_view(&self) -> ConfigFileView {
        match self {
            ConfigFile::Missing => ConfigFileView::Missing,
            ConfigFile::Present { content, parsed } => ConfigFileView::Present {
                content: content@,
                parsed: parsed.deep_view(),
            },
        }
    }
}

impl AppConfigView {
    /// The settings of a fresh installation: no key, no default addresses.
    pub open spec fn empty() -> AppConfigView {
        AppConfigView { api_key: Seq::empty(), default_from: None, default_to: None }
    }

    /// The settings that hold nothing but the key `key`.
    pub open spec fn key_only(key: Seq<char>) -> AppConfigView {
        AppConfigView { api_key: key, default_from: None, default_to: None }
    }

    /// Whether a key is set.
    pub open spec fn has_key(self) -> bool {
        self.api_key.len() > 0
    }

    /// These settings with each given value in place of the stored one.
    pub open spec fn overlay(
        self,
        key: Option<Seq<char>>,
        default_from: Option<Seq<char>>,
        default_to: Option<Seq<char>>,
    ) -> AppConfigView {
        AppConfigView {
            api_key: if let Some(k) = key {
                k
            } else {
                self.api_key
            },
            default_from: if default_from is Some {
                default_from
            } else {
                self.default_from
            },
            default_to: if default_to is Some {
                default_to
            } else {
                self.default_to
            },
        }
    }

    /// These settings with `key` as the API key.
    pub open spec fn with_key(self, key: Seq<char>) -> AppConfigView {
        AppConfigView { api_key: key, ..self }
    }
}

/// The settings that a file stands for.
///
/// A missing file stands for the empty settings. A JSON document of the settings stands for
/// what it holds. Any other content is a bare API key in the older format: the content without
/// white space at its ends, unless nothing is left of it, which again gives the empty settings.
pub open spec fn loaded(file: ConfigFileView) -> AppConfigView {
    match file {
        ConfigFileView::Missing => AppConfigView::empty(),
        ConfigFileView::Present { content, parsed: Some(config) } => config,
        ConfigFileView::Present { content, parsed: None } => if trimmed(content).len() > 0 {
            AppConfigView::key_only(trimmed(content))
        } else {
            AppConfigView::empty()
        },
    }
}

/// A file that holds the JSON document of some settings stands for exactly those settings,
/// whatever they are: with or without a key, with or without default addresses.
pub proof fn law_document_loads_as_written(content: Seq<char>, config: AppConfigView)
    ensures
        loaded(ConfigFileView::Present { content, parsed: Some(config) }) == config,
{
}

/// A file that is no JSON document, and whose content is not empty and has no white space at
/// its ends, stands for that content as the key and for nothing else.
pub proof fn law_bare_key_loads_as_key(content: Seq<char>)
    requires
        content.len() > 0,
        !is_space(content.first()),
        !is_space(content.last()),
    ensures
        loaded(ConfigFileView::Present { content, parsed: None }) == AppConfigView::key_only(
            content,
        ),
{
}

/// A missing file is no failure: it stands for the empty settings.
pub proof fn law_missing_file_loads_as_empty()
    ensures
        loaded(ConfigFileView::Missing) == AppConfigView::empty(),
        !loaded(ConfigFileView::Missing).has_key(),
{
}

/// Storing nothing new changes nothing, and what is given replaces what was stored.
pub proof fn law_overlay(
    config: AppConfigView,
    key: Seq<char>,
    default_from: Seq<char>,
    default_to: Seq<char>,
)
    ensures
        config.overlay(None, None, None) == config,
        config.overlay(Some(key), Some(default_from), Some(default_to)) == (AppConfigView {
            api_key: key,
            default_from: Some(default_from),
            default_to: Some(default_to),
        }),
        config.overlay(Some(key), None, None) == config.with_key(key),
{
}

impl AppConfig {
    /// The settings of a fresh installation.
    pub fn empty() -> (r: AppConfig)
        ensures
            r.deep_view() == AppConfigView::empty(),
    {
        AppConfig { api_key: String::new(), default_from: None, default_to: None }
    }

    /// Whether a key is set.
    pub fn has_key(&self) -> (r: bool)
        ensures
            r == self.deep_view().has_key(),
    {
        !self.api_key.as_str().is_empty()
    }

    /// Puts each given value in place of the stored one and keeps the rest.
    pub fn overlay(
        self,
        key: Option<String>,
        default_from: Option<String>,
        default_to: Option<String>,
    ) -> (r: AppConfig)
        ensures
            r.deep_view() == self.deep_view().overlay(
                key.deep_view(),
                default_from.deep_view(),
                default_to.deep_view(),
            ),
    {
        let api_key = match key {
            Some(k) => k,
            None => self.api_key,
        };
        let from = match default_from {
            Some(f) => Some(f),
            None => self.default_from,
        };
        let to = match default_to {
            Some(t) => Some(t),
            None => self.default_to,
        };
        AppConfig { api_key, default_from: from, default_to: to }
    }

    /// Puts `key` in place of the stored key.
    pub fn with_key(self, key: String) -> (r: AppConfig)
        ensures
            r.deep_view() == self.deep_view().with_key(key@),
    {
        AppConfig { api_key: key, default_from: self.default_from, default_to: self.default_to }
    }
}

/// Reads the settings out of what was found on disk.
pub fn load_config(file: ConfigFile) -> (r: AppConfig)
    ensures
        r.deep_view() == loaded(file.deep_view()),
{
    match file {
        ConfigFile::Missing => AppConfig::empty(),
        ConfigFile::Present { content, parsed } => match parsed {
            Some(config) => config,
            None => {
                let key = trim(content.as_str());
                if key.as_str().is_empty() {
                    AppConfig::empty()
                } else {
                    AppConfig { api_key: key, default_from: None, default_to: None }
                }
            },
        },
    }
}

} // verus!
