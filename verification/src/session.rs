//! The embedding session: a loaded model that turns texts into vectors.
//!
//! The engine reads the network and the disk when it loads a model, and
//! computes on what it has loaded when it embeds. Both calls are made by the
//! caller of this library, who can guard them. The library decides what is to
//! be done before each call and what to make of whatever came back: a caller
//! builds a session by [`JsInitOptions::resolve`](crate::JsInitOptions::resolve),
//! the load, and [`conclude_load`]; it embeds by [`plan_embed`], the engine's
//! run, and [`JsTextEmbedding::embed`].

use fastembed::TextEmbedding;
use vstd::prelude::*;

use crate::catalog::JSEmbeddingModel;
use crate::failure::{classify_load_failure, load_failure, EmbedError, LoadFault, Setting};
use crate::options::{SessionConfig, Settings};

verus! {

/// Whether `rows` holds one vector for each of `count` texts, each of length `dim`.
pub open spec fn well_shaped(rows: Seq<Vec<u32>>, count: nat, dim: nat) -> bool {
    &&& rows.len() == count
    &&& forall|i: int| 0 <= i < rows.len() ==> (#[trigger] rows[i])@.len() == dim
}

/// What a call to embed has to do once its arguments are known.
#[derive(Clone, Copy, Debug, PartialEq, Eq, Structural)]
pub enum EmbedPlan {
    /// There are no texts: the result is empty and the engine is not called.
    Nothing,
    /// The engine is called with this batch size, `None` leaving the size to it.
    Run(Option<usize>),
}

/// The plan for `count` texts and the batch size asked for. Without texts
/// there is nothing to do, whatever the batch size. With texts, a batch size
/// of zero or less is a configuration failure, and a positive one is taken as
/// it is.
pub open spec fn plan_of(count: nat, batch_size: Option<i32>) -> Result<EmbedPlan, EmbedError> {
    if count == 0 {
        Ok(EmbedPlan::Nothing)
    } else {
        match batch_size {
            None => Ok(EmbedPlan::Run(None)),
            Some(size) => if size > 0 {
                Ok(EmbedPlan::Run(Some(size as usize)))
            } else {
                Err(EmbedError::Configuration(Setting::BatchSize))
            },
        }
    }
}

/// Decides what a call to embed has to do for `count` texts.
pub fn plan_embed(count: usize, batch_size: Option<i32>) -> (plan: Result<EmbedPlan, EmbedError>)
    ensures
        plan == plan_of(count as nat, batch_size),
{
    if count == 0 {
        return Ok(EmbedPlan::Nothing);
    }
    match batch_size {
        None => Ok(EmbedPlan::Run(None)),
        Some(size) => if size > 0 {
            Ok(EmbedPlan::Run(Some(size as usize)))
        } else {
            Err(EmbedError::Configuration(Setting::BatchSize))
        },
    }
}

/// What is said of a result that has more or fewer vectors than there are texts.
pub const WRONG_COUNT: &'static str = "the engine returned a wrong number of vectors";

/// What is said of a result with a vector that is not as long as the model's vectors are.
pub const WRONG_LENGTH: &'static str = "the engine returned a vector of a wrong length";

/// Accepts what the engine produced for `count` texts if it is one vector per
/// text, each of length `dim`, and hands it on unchanged. Anything else is an
/// inference failure, which says whether the number of vectors or the length
/// of one is wrong.
pub fn accept_rows(rows: Vec<Vec<u32>>, count: usize, dim: usize) -> (accepted: Result<
    Vec<Vec<u32>>,
    EmbedError,
>)
    ensures
        match accepted {
            Ok(kept) => well_shaped(rows@, count as nat, dim as nat) && kept == rows,
            Err(failure) => {
                &&& !well_shaped(rows@, count as nat, dim as nat)
                &&& failure matches EmbedError::Inference(detail)
                &&& detail@ == if rows@.len() != count {
                    WRONG_COUNT@
                } else {
                    WRONG_LENGTH@
                }
            },
        },
{
    if rows.len() != count {
        return Err(EmbedError::Inference(WRONG_COUNT.to_owned()));
    }
    let mut i: usize = 0;
    while i < rows.len()
        invariant
            i <= rows.len(),
            rows.len() == count,
            forall|k: int| 0 <= k < i ==> (#[trigger] rows@[k])@.len() == dim,
        decreases rows.len() - i,
    {
        if rows[i].len() != dim {
            return Err(EmbedError::Inference(WRONG_LENGTH.to_owned()));
        }
        i += 1;
    }
    Ok(rows)
}

/// What is said where texts were to be embedded and the engine was not run.
pub const NOT_RUN: &'static str = "the engine was not run";

/// How the engine's run for a call to embed ended, as its caller saw it.
#[derive(Debug, PartialEq, Eq)]
pub enum EmbedAttempt {
    /// The engine was not run.
    NotRun,
    /// The engine returned these vectors, each component given as the bit
    /// pattern of a single-precision number.
    Returned(Vec<Vec<u32>>),
    /// The engine returned an error, with this text.
    Failed(String),
    /// The engine panicked, with this text.
    Panicked(String),
}

/// Whether `embedded` is the result of a call to embed for `count` texts with
/// a model and a batch size, when the engine's run ended as `attempt`.
///
/// A failure of the plan is the result, whatever the engine did. With no
/// texts the result is empty. With texts to run, vectors that the engine
/// returned are the result if they are one per text, each of the model's
/// length, and an inference failure that says what is wrong if they are not;
/// an error or a panic of the engine is an inference failure with its text;
/// and so is an engine that was not run.
pub open spec fn embed_concluded(
    model: JSEmbeddingModel,
    count: nat,
    batch_size: Option<i32>,
    attempt: EmbedAttempt,
    embedded: Result<Vec<Vec<u32>>, EmbedError>,
) -> bool {
    match plan_of(count, batch_size) {
        Err(failure) => embedded == Err::<Vec<Vec<u32>>, EmbedError>(failure),
        Ok(EmbedPlan::Nothing) => embedded is Ok && embedded.unwrap()@.len() == 0,
        Ok(EmbedPlan::Run(_)) => match attempt {
            EmbedAttempt::Returned(rows) => match embedded {
                Ok(kept) => well_shaped(rows@, count, model.dim()) && kept == rows,
                Err(failure) => {
                    &&& !well_shaped(rows@, count, model.dim())
                    &&& failure matches EmbedError::Inference(detail)
                    &&& detail@ == if rows@.len() != count {
                        WRONG_COUNT@
                    } else {
                        WRONG_LENGTH@
                    }
                },
            },
            EmbedAttempt::Failed(text) => embedded == Err::<Vec<Vec<u32>>, EmbedError>(
                EmbedError::Inference(text),
            ),
            EmbedAttempt::Panicked(text) => embedded == Err::<Vec<Vec<u32>>, EmbedError>(
                EmbedError::Inference(text),
            ),
            EmbedAttempt::NotRun => {
                &&& embedded matches Err(EmbedError::Inference(detail))
                &&& detail@ == NOT_RUN@
            },
        },
    }
}

/// Decides the result of a call to embed for `count` texts with `model`, from
/// the batch size asked for and the way the engine's run ended.
pub fn conclude_embed(
    model: JSEmbeddingModel,
    count: usize,
    batch_size: Option<i32>,
    attempt: EmbedAttempt,
) -> (embedded: Result<Vec<Vec<u32>>, EmbedError>)
    ensures
        embed_concluded(model, count as nat, batch_size, attempt, embedded),
{
    match plan_embed(count, batch_size) {
        Err(failure) => Err(failure),
        Ok(EmbedPlan::Nothing) => Ok(Vec::new()),
        Ok(EmbedPlan::Run(_)) => match attempt {
            EmbedAttempt::Returned(rows) => accept_rows(rows, count, model.dimension()),
            EmbedAttempt::Failed(text) => Err(EmbedError::Inference(text)),
            EmbedAttempt::Panicked(text) => Err(EmbedError::Inference(text)),
            EmbedAttempt::NotRun => Err(EmbedError::Inference(NOT_RUN.to_owned())),
        },
    }
}

/// The engine with a model loaded, `fastembed::TextEmbedding`. A session holds
/// it and hands it out; the library looks at nothing inside it.
#[verifier::external_type_specification]
#[verifier::external_body]
pub struct ExTextEmbedding(TextEmbedding);

/// A session in its ready state: the engine with a model loaded, and the
/// settings it was loaded for. Nothing changes a session once it is made.
pub struct JsTextEmbedding {
    embedding: TextEmbedding,
    config: SessionConfig,
}

impl JsTextEmbedding {
    #[verifier::type_invariant]
    spec fn settled(&self) -> bool {
        self.config@.valid()
    }

    /// The settings of the session.
    pub closed spec fn settings(&self) -> Settings {
        self.config@
    }

    /// The engine of the session.
    pub closed spec fn loaded(&self) -> TextEmbedding {
        self.embedding
    }

    /// Whether `rows` is a result that the session may give for `count` texts:
    /// one vector per text, each of the length of the session's model.
    pub open spec fn produces(&self, count: nat, rows: Seq<Vec<u32>>) -> bool {
        well_shaped(rows, count, self.settings().model.dim())
    }

    /// Makes a session of an engine and the settings it was loaded for.
    /// Settings that are not valid are a configuration failure.
    pub fn new(embedding: TextEmbedding, config: SessionConfig) -> (made: Result<
        JsTextEmbedding,
        EmbedError,
    >)
        ensures
            match made {
                Ok(session) => {
                    &&& config@.valid()
                    &&& session.settings() == config@
                    &&& session.loaded() == embedding
                },
                Err(failure) => {
                    &&& !config@.valid()
                    &&& failure == EmbedError::Configuration(Setting::MaxLength)
                },
            },
    {
        if config.is_valid() {
            Ok(JsTextEmbedding { embedding, config })
        } else {
            Err(EmbedError::Configuration(Setting::MaxLength))
        }
    }

    /// The settings of the session.
    pub fn config(&self) -> (config: &SessionConfig)
        ensures
            config@ == self.settings(),
            config@.valid(),
    {
        proof {
            use_type_invariant(self);
        }
        &self.config
    }

    /// The engine of the session, for the caller to run.
    pub fn engine(&self) -> (engine: &TextEmbedding)
        ensures
            *engine == self.loaded(),
    {
        &self.embedding
    }

    /// Decides the result of a call to embed `count` texts, from the batch
    /// size asked for and the way the run of the session's engine ended. The
    /// result has one vector per text, in the order in which the engine gave
    /// them, each component as the bit pattern of a single-precision number.
    ///
    /// With no texts the result is empty, whatever the batch size. With texts,
    /// a batch size of zero or less is a configuration failure. Otherwise the
    /// engine decides: its errors and panics are inference failures, and so is
    /// a result that is not one vector per text, each of the length of the
    /// session's model.
    pub fn embed(&self, count: usize, batch_size: Option<i32>, attempt: EmbedAttempt) -> (embedded:
        Result<Vec<Vec<u32>>, EmbedError>)
        ensures
            embed_concluded(self.settings().model, count as nat, batch_size, attempt, embedded),
            embedded matches Ok(rows) ==> self.produces(count as nat, rows@),
            count == 0 ==> embedded is Ok,
    {
        conclude_embed(self.config.model, count, batch_size, attempt)
    }
}

/// The longest that a caller waits for an engine to load, in seconds. The
/// engine itself sets no limit to the time a remote takes to answer.
pub const LOAD_TIME_LIMIT_SECONDS: u64 = 1800;

/// What is said of a load that was given up after the time limit.
pub const LOAD_TIMED_OUT: &'static str = "the model was not loaded within the time limit";

/// How the load of an engine ended, as its caller saw it.
pub enum LoadAttempt {
    /// The engine was loaded.
    Loaded(TextEmbedding),
    /// The engine returned an error, in which this was found.
    Failed(LoadFault),
    /// The engine panicked, with this text.
    Panicked(String),
    /// The load had not ended when the time limit was over.
    TimedOut,
}

/// Whether `made` is the result of building a session with `config`, when the
/// load of the engine for these settings ended as `attempt`.
///
/// Settings that are not valid are a configuration failure, whatever the
/// engine did. Otherwise a loaded engine gives a session that holds it with
/// the settings; an error of the engine is the failure that
/// [`load_failure`] makes of what was found in it; a panic is a model load
/// failure with its text; and a load over time is a download failure, since
/// only a remote is waited for without end.
pub open spec fn load_concluded(
    config: SessionConfig,
    attempt: LoadAttempt,
    made: Result<JsTextEmbedding, EmbedError>,
) -> bool {
    if !config@.valid() {
        made == Err::<JsTextEmbedding, EmbedError>(EmbedError::Configuration(Setting::MaxLength))
    } else {
        match attempt {
            LoadAttempt::Loaded(embedding) => {
                &&& made matches Ok(session)
                &&& session.settings() == config@
                &&& session.loaded() == embedding
            },
            LoadAttempt::Failed(fault) => made == Err::<JsTextEmbedding, EmbedError>(
                load_failure(fault.hub, fault.io, fault.text),
            ),
            LoadAttempt::Panicked(text) => made == Err::<JsTextEmbedding, EmbedError>(
                EmbedError::ModelLoad(text),
            ),
            LoadAttempt::TimedOut => {
                &&& made matches Err(EmbedError::Download(detail))
                &&& detail@ == LOAD_TIMED_OUT@
            },
        }
    }
}

/// Decides the result of building a session with `config`, from the way the
/// load of the engine ended.
pub fn conclude_load(config: SessionConfig, attempt: LoadAttempt) -> (made: Result<
    JsTextEmbedding,
    EmbedError,
>)
    ensures
        load_concluded(config, attempt, made),
{
    if !config.is_valid() {
        return Err(EmbedError::Configuration(Setting::MaxLength));
    }
    match attempt {
        LoadAttempt::Loaded(embedding) => JsTextEmbedding::new(embedding, config),
        LoadAttempt::Failed(fault) => Err(classify_load_failure(fault.hub, fault.io, fault.text)),
        LoadAttempt::Panicked(text) => Err(EmbedError::ModelLoad(text)),
        LoadAttempt::TimedOut => Err(EmbedError::Download(LOAD_TIMED_OUT.to_owned())),
    }
}

/// Sessions built for one model give vectors of one length: whatever two such
/// sessions produce, for any texts, every vector of the one is as long as
/// every vector of the other.
pub proof fn same_model_same_dimension(
    first: JsTextEmbedding,
    second: JsTextEmbedding,
    first_count: nat,
    first_rows: Seq<Vec<u32>>,
    second_count: nat,
    second_rows: Seq<Vec<u32>>,
)
    requires
        first.settings().model == second.settings().model,
        first.produces(first_count, first_rows),
        second.produces(second_count, second_rows),
    ensures
        forall|i: int, j: int|
            0 <= i < first_rows.len() && 0 <= j < second_rows.len() ==> (#[trigger] first_rows[i])@.len()
                == (#[trigger] second_rows[j])@.len(),
{
}

/// The batch size does not show in the shape of a result: two results of one
/// session for the same number of texts have the same number of vectors, and
/// vectors of the same length at each place.
pub proof fn batch_size_keeps_shape(
    session: JsTextEmbedding,
    count: nat,
    one: Seq<Vec<u32>>,
    other: Seq<Vec<u32>>,
)
    requires
        session.produces(count, one),
        session.produces(count, other),
    ensures
        one.len() == other.len(),
        forall|i: int| 0 <= i < one.len() ==> (#[trigger] one[i])@.len() == other[i]@.len(),
{
}

} // verus!
