use text_embedding::session::{
    accept_rows, conclude_embed, conclude_load, plan_embed, LOAD_TIMED_OUT, LOAD_TIME_LIMIT_SECONDS,
    NOT_RUN, WRONG_COUNT, WRONG_LENGTH,
};
use text_embedding::{
    EmbedAttempt, EmbedError, EmbedPlan, HubFault, IoKind, JSEmbeddingModel, JsInitOptions,
    JsTextEmbedding, LoadAttempt, LoadFault, SessionConfig, Setting,
};

fn rows_of(count: usize, dim: usize, value: f32) -> Vec<Vec<u32>> {
    (0..count).map(|_| vec![value.to_bits(); dim]).collect()
}

#[test]
fn no_texts_need_no_engine() {
    assert_eq!(plan_embed(0, None), Ok(EmbedPlan::Nothing));
    assert_eq!(plan_embed(0, Some(1)), Ok(EmbedPlan::Nothing));
    assert_eq!(plan_embed(0, Some(256)), Ok(EmbedPlan::Nothing));
}

#[test]
fn no_texts_are_never_a_failure() {
    assert_eq!(plan_embed(0, Some(0)), Ok(EmbedPlan::Nothing));
    assert_eq!(plan_embed(0, Some(-256)), Ok(EmbedPlan::Nothing));
    assert_eq!(plan_embed(0, Some(i32::MIN)), Ok(EmbedPlan::Nothing));
}

#[test]
fn texts_run_with_the_batch_size_given() {
    assert_eq!(plan_embed(2, None), Ok(EmbedPlan::Run(None)));
    assert_eq!(plan_embed(2, Some(1)), Ok(EmbedPlan::Run(Some(1))));
    assert_eq!(plan_embed(2, Some(2)), Ok(EmbedPlan::Run(Some(2))));
    assert_eq!(plan_embed(1000, Some(256)), Ok(EmbedPlan::Run(Some(256))));
    assert_eq!(plan_embed(1, Some(i32::MAX)), Ok(EmbedPlan::Run(Some(2147483647))));
    assert_eq!(plan_embed(usize::MAX, Some(7)), Ok(EmbedPlan::Run(Some(7))));
}

#[test]
fn batch_size_must_be_positive() {
    let rejected = Err(EmbedError::Configuration(Setting::BatchSize));
    assert_eq!(plan_embed(2, Some(0)), rejected);
    assert_eq!(plan_embed(2, Some(-1)), rejected);
    assert_eq!(plan_embed(1, Some(i32::MIN)), rejected);
}

#[test]
fn two_vectors_of_the_default_model_are_accepted() {
    let dim = JSEmbeddingModel::BGESmallENV15.dimension();
    assert_eq!(dim, 384);
    let rows = rows_of(2, dim, 0.05103104);
    let accepted = accept_rows(rows.clone(), 2, dim).unwrap();
    assert_eq!(accepted, rows);
    assert_eq!(accepted.len(), 2);
    for row in &accepted {
        assert_eq!(row.len(), 384);
        let norm: f32 = row.iter().map(|bits| f32::from_bits(*bits).powi(2)).sum::<f32>().sqrt();
        assert!((norm - 1.0).abs() < 1e-4);
    }
}

#[test]
fn accepted_rows_come_back_unchanged_and_in_order() {
    let rows = vec![vec![1, 2, 3], vec![4, 5, 6], vec![7, 8, 9], vec![0, 0, 0]];
    assert_eq!(accept_rows(rows.clone(), 4, 3), Ok(rows));
}

#[test]
fn no_rows_for_no_texts_are_accepted() {
    assert_eq!(accept_rows(Vec::new(), 0, 384), Ok(Vec::new()));
}

#[test]
fn a_wrong_number_of_vectors_is_an_inference_failure() {
    let wrong_count = Err(EmbedError::Inference(String::from("the engine returned a wrong number of vectors")));
    assert_eq!(accept_rows(rows_of(1, 384, 0.5), 2, 384), wrong_count);
    assert_eq!(accept_rows(rows_of(3, 384, 0.5), 2, 384), wrong_count);
    assert_eq!(accept_rows(Vec::new(), 1, 384), wrong_count);
    assert_eq!(accept_rows(rows_of(1, 384, 0.5), 0, 384), wrong_count);
    assert_eq!(accept_rows(rows_of(1, 383, 0.5), 2, 384), wrong_count);
    assert_eq!(WRONG_COUNT, "the engine returned a wrong number of vectors");
}

#[test]
fn a_vector_of_a_wrong_length_is_an_inference_failure() {
    let wrong_length = Err(EmbedError::Inference(String::from("the engine returned a vector of a wrong length")));
    assert_eq!(accept_rows(rows_of(2, 383, 0.5), 2, 384), wrong_length);
    assert_eq!(accept_rows(rows_of(2, 768, 0.5), 2, 384), wrong_length);
    let mut rows = rows_of(3, 384, 0.5);
    rows[2].pop();
    assert_eq!(accept_rows(rows, 3, 384), wrong_length);
    let mut rows = rows_of(3, 384, 0.5);
    rows[0].push(0);
    assert_eq!(accept_rows(rows, 3, 384), wrong_length);
    assert_eq!(accept_rows(vec![Vec::new()], 1, 1), wrong_length);
    assert_eq!(WRONG_LENGTH, "the engine returned a vector of a wrong length");
}

#[test]
fn results_for_one_model_have_one_shape() {
    let dim = JSEmbeddingModel::MultilingualE5Base.dimension();
    let in_one_batch = accept_rows(rows_of(5, dim, 0.25), 5, dim).unwrap();
    let one_by_one = accept_rows(rows_of(5, dim, 0.75), 5, dim).unwrap();
    assert_eq!(in_one_batch.len(), one_by_one.len());
    for (a, b) in in_one_batch.iter().zip(one_by_one.iter()) {
        assert_eq!(a.len(), b.len());
        assert_eq!(a.len(), 768);
    }
}

fn settings(max_length: usize) -> SessionConfig {
    SessionConfig {
        model: JSEmbeddingModel::AllMiniLML6V2,
        max_length,
        cache_dir: String::from("models"),
        show_download_progress: false,
    }
}

fn failure_of(made: Result<JsTextEmbedding, EmbedError>) -> EmbedError {
    match made {
        Err(failure) => failure,
        Ok(_) => panic!("a session was built"),
    }
}

fn fault(hub: Option<HubFault>, io: Option<IoKind>) -> LoadAttempt {
    LoadAttempt::Failed(LoadFault { hub, io, text: String::from("what went wrong") })
}

#[test]
fn unacceptable_options_give_no_settings_to_load_for() {
    for length in [0, -1, i32::MIN] {
        let options = JsInitOptions {
            model_name: Some(JSEmbeddingModel::AllMiniLML6V2),
            max_length: Some(length),
            cache_dir: None,
            show_download_progress: Some(false),
        };
        assert_eq!(options.resolve(), Err(EmbedError::Configuration(Setting::MaxLength)));
    }
}

#[test]
fn settings_that_are_not_valid_build_no_session() {
    let rejected = EmbedError::Configuration(Setting::MaxLength);
    assert_eq!(failure_of(conclude_load(settings(0), LoadAttempt::TimedOut)), rejected);
    assert_eq!(failure_of(conclude_load(settings(0), LoadAttempt::Panicked(String::new()))), rejected);
    assert_eq!(failure_of(conclude_load(settings(0), fault(Some(HubFault::Request), None))), rejected);
}

#[test]
fn a_failed_fetch_is_a_download_failure() {
    let what = String::from("what went wrong");
    assert_eq!(
        failure_of(conclude_load(settings(512), fault(Some(HubFault::Request), None))),
        EmbedError::Download(what.clone())
    );
    assert_eq!(
        failure_of(conclude_load(settings(1), fault(Some(HubFault::Io(IoKind::ConnectionReset)), None))),
        EmbedError::Download(what)
    );
}

#[test]
fn a_cache_that_cannot_be_written_is_a_storage_failure() {
    let what = String::from("what went wrong");
    assert_eq!(
        failure_of(conclude_load(settings(512), fault(Some(HubFault::Io(IoKind::PermissionDenied)), None))),
        EmbedError::Storage(what.clone())
    );
    assert_eq!(
        failure_of(conclude_load(settings(512), fault(None, Some(IoKind::NotFound)))),
        EmbedError::Storage(what)
    );
}

#[test]
fn a_corrupt_file_is_a_model_load_failure() {
    let what = String::from("what went wrong");
    assert_eq!(
        failure_of(conclude_load(settings(512), fault(None, Some(IoKind::InvalidData)))),
        EmbedError::ModelLoad(what.clone())
    );
    assert_eq!(failure_of(conclude_load(settings(512), fault(None, None))), EmbedError::ModelLoad(what));
}

#[test]
fn a_panic_while_loading_is_a_model_load_failure() {
    let panicked = LoadAttempt::Panicked(String::from("Error reading pad_token"));
    assert_eq!(
        failure_of(conclude_load(settings(512), panicked)),
        EmbedError::ModelLoad(String::from("Error reading pad_token"))
    );
}

#[test]
fn a_load_over_time_is_a_download_failure() {
    assert_eq!(
        failure_of(conclude_load(settings(512), LoadAttempt::TimedOut)),
        EmbedError::Download(String::from("the model was not loaded within the time limit"))
    );
    assert_eq!(LOAD_TIMED_OUT, "the model was not loaded within the time limit");
    assert_eq!(LOAD_TIME_LIMIT_SECONDS, 1800);
}

const SMALL: JSEmbeddingModel = JSEmbeddingModel::BGESmallENV15;

#[test]
fn embedding_no_texts_is_empty_and_never_a_failure() {
    assert_eq!(conclude_embed(SMALL, 0, None, EmbedAttempt::NotRun), Ok(Vec::new()));
    assert_eq!(conclude_embed(SMALL, 0, Some(256), EmbedAttempt::NotRun), Ok(Vec::new()));
    assert_eq!(conclude_embed(SMALL, 0, Some(0), EmbedAttempt::NotRun), Ok(Vec::new()));
    assert_eq!(conclude_embed(SMALL, 0, Some(-1), EmbedAttempt::NotRun), Ok(Vec::new()));
    assert_eq!(
        conclude_embed(SMALL, 0, None, EmbedAttempt::Panicked(String::from("lost"))),
        Ok(Vec::new())
    );
    assert_eq!(
        conclude_embed(SMALL, 0, None, EmbedAttempt::Returned(rows_of(1, 384, 0.5))),
        Ok(Vec::new())
    );
}

#[test]
fn a_rejected_batch_size_decides_whatever_the_engine_did() {
    let rejected = Err(EmbedError::Configuration(Setting::BatchSize));
    assert_eq!(conclude_embed(SMALL, 2, Some(0), EmbedAttempt::NotRun), rejected);
    assert_eq!(conclude_embed(SMALL, 2, Some(-4), EmbedAttempt::Returned(rows_of(2, 384, 0.5))), rejected);
}

#[test]
fn vectors_of_the_right_shape_are_the_result() {
    let rows = rows_of(2, 384, 0.05103104);
    assert_eq!(conclude_embed(SMALL, 2, None, EmbedAttempt::Returned(rows.clone())), Ok(rows.clone()));
    assert_eq!(conclude_embed(SMALL, 2, Some(1), EmbedAttempt::Returned(rows.clone())), Ok(rows.clone()));
    assert_eq!(conclude_embed(SMALL, 2, Some(2), EmbedAttempt::Returned(rows.clone())), Ok(rows));
    let one = rows_of(1, 768, 0.25);
    assert_eq!(
        conclude_embed(JSEmbeddingModel::GTEBaseENV15, 1, None, EmbedAttempt::Returned(one.clone())),
        Ok(one)
    );
}

#[test]
fn vectors_of_a_wrong_shape_are_an_inference_failure() {
    assert_eq!(
        conclude_embed(SMALL, 2, None, EmbedAttempt::Returned(rows_of(3, 384, 0.5))),
        Err(EmbedError::Inference(String::from("the engine returned a wrong number of vectors")))
    );
    assert_eq!(
        conclude_embed(SMALL, 2, None, EmbedAttempt::Returned(rows_of(2, 768, 0.5))),
        Err(EmbedError::Inference(String::from("the engine returned a vector of a wrong length")))
    );
}

#[test]
fn an_error_of_the_engine_is_an_inference_failure() {
    assert_eq!(
        conclude_embed(SMALL, 1, None, EmbedAttempt::Failed(String::from("out of memory"))),
        Err(EmbedError::Inference(String::from("out of memory")))
    );
}

#[test]
fn a_panic_while_embedding_is_an_inference_failure() {
    let panicked = EmbedAttempt::Panicked(String::from("Could not broadcast attention mask"));
    assert_eq!(
        conclude_embed(SMALL, 3, Some(1), panicked),
        Err(EmbedError::Inference(String::from("Could not broadcast attention mask")))
    );
}

#[test]
fn an_engine_that_was_not_run_is_an_inference_failure() {
    assert_eq!(
        conclude_embed(SMALL, 1, None, EmbedAttempt::NotRun),
        Err(EmbedError::Inference(String::from("the engine was not run")))
    );
    assert_eq!(NOT_RUN, "the engine was not run");
}
