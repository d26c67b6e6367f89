use text_embedding::options::{
    DEFAULT_CACHE_DIR, DEFAULT_EMBEDDING_MODEL, DEFAULT_MAX_LENGTH, DEFAULT_SHOW_DOWNLOAD_PROGRESS,
};
use text_embedding::{EmbedError, JSEmbeddingModel, JsInitOptions, SessionConfig, Setting};

fn with_length(max_length: Option<i32>) -> JsInitOptions {
    JsInitOptions { model_name: None, max_length, cache_dir: None, show_download_progress: None }
}

#[test]
fn defaults_have_their_values() {
    assert_eq!(DEFAULT_EMBEDDING_MODEL, JSEmbeddingModel::BGESmallENV15);
    assert_eq!(DEFAULT_MAX_LENGTH, 512);
    assert_eq!(DEFAULT_CACHE_DIR, ".fastembed_cache");
    assert!(DEFAULT_SHOW_DOWNLOAD_PROGRESS);
}

#[test]
fn default_options_leave_everything_out() {
    let options = JsInitOptions::default();
    assert_eq!(options.model_name, None);
    assert_eq!(options.max_length, None);
    assert_eq!(options.cache_dir, None);
    assert_eq!(options.show_download_progress, None);
}

#[test]
fn empty_options_resolve_to_the_defaults() {
    let expected = SessionConfig {
        model: JSEmbeddingModel::BGESmallENV15,
        max_length: 512,
        cache_dir: String::from(".fastembed_cache"),
        show_download_progress: true,
    };
    assert_eq!(JsInitOptions::default().resolve(), Ok(expected));
}

#[test]
fn given_options_are_kept() {
    let options = JsInitOptions {
        model_name: Some(JSEmbeddingModel::MultilingualE5Large),
        max_length: Some(128),
        cache_dir: Some(String::from("/var/cache/models")),
        show_download_progress: Some(false),
    };
    let expected = SessionConfig {
        model: JSEmbeddingModel::MultilingualE5Large,
        max_length: 128,
        cache_dir: String::from("/var/cache/models"),
        show_download_progress: false,
    };
    assert_eq!(options.resolve(), Ok(expected));
}

#[test]
fn each_option_falls_back_alone() {
    let options = JsInitOptions {
        model_name: None,
        max_length: Some(3),
        cache_dir: Some(String::new()),
        show_download_progress: None,
    };
    let expected = SessionConfig {
        model: JSEmbeddingModel::BGESmallENV15,
        max_length: 3,
        cache_dir: String::new(),
        show_download_progress: true,
    };
    assert_eq!(options.resolve(), Ok(expected));
}

#[test]
fn largest_length_is_accepted() {
    let config = with_length(Some(i32::MAX)).resolve().unwrap();
    assert_eq!(config.max_length, 2147483647);
}

#[test]
fn smallest_length_is_accepted() {
    let config = with_length(Some(1)).resolve().unwrap();
    assert_eq!(config.max_length, 1);
    assert!(config.is_valid());
    let config = with_length(Some(2)).resolve().unwrap();
    assert_eq!(config.max_length, 2);
}

#[test]
fn validity_of_settings_is_a_positive_length() {
    let mut config = JsInitOptions::default().resolve().unwrap();
    assert!(config.is_valid());
    config.max_length = 0;
    assert!(!config.is_valid());
    config.max_length = usize::MAX;
    assert!(config.is_valid());
}

#[test]
fn zero_length_is_rejected() {
    assert_eq!(with_length(Some(0)).resolve(), Err(EmbedError::Configuration(Setting::MaxLength)));
}

#[test]
fn negative_length_is_rejected() {
    let rejected = Err(EmbedError::Configuration(Setting::MaxLength));
    assert_eq!(with_length(Some(-1)).resolve(), rejected);
    assert_eq!(with_length(Some(-512)).resolve(), rejected);
    assert_eq!(with_length(Some(i32::MIN)).resolve(), rejected);
}
