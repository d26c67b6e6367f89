//! What a caller may ask for, and the settings a session is built from.

use vstd::prelude::*;

use crate::catalog::JSEmbeddingModel;
use crate::failure::{EmbedError, Setting};

verus! {

/// The model of a session whose options name none.
pub const DEFAULT_EMBEDDING_MODEL: JSEmbeddingModel = JSEmbeddingModel::BGESmallENV15;

/// The maximum sequence length where the options give none.
pub const DEFAULT_MAX_LENGTH: i32 = 512;

/// The cache directory where the options give none.
pub const DEFAULT_CACHE_DIR: &'static str = ".fastembed_cache";

/// Whether download progress is shown where the options do not say.
pub const DEFAULT_SHOW_DOWNLOAD_PROGRESS: bool = true;

/// The options of a session, each of which may be left out.
pub struct JsInitOptions {
    /// The model to load.
    pub model_name: Option<JSEmbeddingModel>,
    /// The largest number of tokens in the sequence made from a text; it must
    /// be positive.
    pub max_length: Option<i32>,
    /// The directory that holds the files of the models.
    pub cache_dir: Option<String>,
    /// Whether progress is shown while files are fetched.
    pub show_download_progress: Option<bool>,
}

/// The settings of a session: every option decided.
#[derive(Debug, PartialEq, Eq)]
pub struct SessionConfig {
    pub model: JSEmbeddingModel,
    pub max_length: usize,
    pub cache_dir: String,
    pub show_download_progress: bool,
}

/// The settings of a session as plain values.
pub struct Settings {
    pub model: JSEmbeddingModel,
    pub max_length: nat,
    pub cache_dir: Seq<char>,
    pub show_download_progress: bool,
}

impl View for SessionConfig {
    type V = Settings;

    open spec fn view(&self) -> Settings {
        Settings {
            model: self.model,
            max_length: self.max_length as nat,
            cache_dir: self.cache_dir@,
            show_download_progress: self.show_download_progress,
        }
    }
}

impl SessionConfig {
    /// Whether the settings are valid.
    pub fn is_valid(&self) -> (valid: bool)
        ensures
            valid == self@.valid(),
    {
        self.max_length > 0
    }
}

impl Settings {
    /// A session needs a positive maximum sequence length.
    pub open spec fn valid(self) -> bool {
        self.max_length > 0
    }
}

impl JsInitOptions {
    /// The maximum sequence length asked for, with the default where none is given.
    pub open spec fn length(self) -> int {
        match self.max_length {
            Some(length) => length as int,
            None => DEFAULT_MAX_LENGTH as int,
        }
    }

    /// Options are acceptable when the maximum sequence length is positive.
    pub open spec fn acceptable(self) -> bool {
        self.length() > 0
    }

    /// The settings these options stand for, each omitted option replaced by its default.
    pub open spec fn resolved(self) -> Settings {
        Settings {
            model: match self.model_name {
                Some(model) => model,
                None => DEFAULT_EMBEDDING_MODEL,
            },
            max_length: self.length() as nat,
            cache_dir: match self.cache_dir {
                Some(dir) => dir@,
                None => DEFAULT_CACHE_DIR@,
            },
            show_download_progress: match self.show_download_progress {
                Some(show) => show,
                None => DEFAULT_SHOW_DOWNLOAD_PROGRESS,
            },
        }
    }

    /// Decides every option. Options with a maximum sequence length of zero or
    /// less are a configuration failure; all others give their settings, which
    /// are valid.
    pub fn resolve(self) -> (decided: Result<SessionConfig, EmbedError>)
        ensures
            self.acceptable() ==> decided is Ok && decided.unwrap()@ == self.resolved(),
            !self.acceptable() ==> decided == Err::<SessionConfig, EmbedError>(
                EmbedError::Configuration(Setting::MaxLength),
            ),
    {
        let length: i32 = match self.max_length {
            Some(length) => length,
            None => DEFAULT_MAX_LENGTH,
        };
        if length <= 0 {
            return Err(EmbedError::Configuration(Setting::MaxLength));
        }
        Ok(
            SessionConfig {
                model: match self.model_name {
                    Some(model) => model,
                    None => DEFAULT_EMBEDDING_MODEL,
                },
                max_length: length as usize,
                cache_dir: match self.cache_dir {
                    Some(dir) => dir,
                    None => DEFAULT_CACHE_DIR.to_owned(),
                },
                show_download_progress: match self.show_download_progress {
                    Some(show) => show,
                    None => DEFAULT_SHOW_DOWNLOAD_PROGRESS,
                },
            },
        )
    }
}

impl Default for JsInitOptions {
    /// The options that leave everything to the defaults.
    fn default() -> (options: JsInitOptions)
        ensures
            options.model_name is None,
            options.max_length is None,
            options.cache_dir is None,
            options.show_download_progress is None,
    {
        JsInitOptions { model_name: None, max_length: None, cache_dir: None, show_download_progress: None }
    }
}

} // verus!
