//! The closed catalog of embedding models: each identifier with the facts the
//! session relies on, and its counterpart in the inference engine.

use fastembed::EmbeddingModel;
use vstd::prelude::*;
use vstd::std_specs::convert::FromSpecImpl;

use crate::failure::{EmbedError, Setting};

verus! {

/// The engine's own model catalog, `fastembed::EmbeddingModel`. It is declared
/// with its variants visible, so that the conversion into it is proved variant
/// by variant rather than taken on trust.
#[verifier::external_type_specification]
pub struct ExEmbeddingModel(EmbeddingModel);

/// The models a session can be built for.
#[derive(Clone, Copy, Debug, PartialEq, Eq, Hash, Structural)]
pub enum JSEmbeddingModel {
    /// sentence-transformers/all-MiniLM-L6-v2
    AllMiniLML6V2,
    /// Quantized sentence-transformers/all-MiniLM-L6-v2
    AllMiniLML6V2Q,
    /// sentence-transformers/all-MiniLM-L12-v2
    AllMiniLML12V2,
    /// Quantized sentence-transformers/all-MiniLM-L12-v2
    AllMiniLML12V2Q,
    /// BAAI/bge-base-en-v1.5
    BGEBaseENV15,
    /// Quantized BAAI/bge-base-en-v1.5
    BGEBaseENV15Q,
    /// BAAI/bge-large-en-v1.5
    BGELargeENV15,
    /// Quantized BAAI/bge-large-en-v1.5
    BGELargeENV15Q,
    /// BAAI/bge-small-en-v1.5, the default
    BGESmallENV15,
    /// Quantized BAAI/bge-small-en-v1.5
    BGESmallENV15Q,
    /// nomic-ai/nomic-embed-text-v1
    NomicEmbedTextV1,
    /// nomic-ai/nomic-embed-text-v1.5
    NomicEmbedTextV15,
    /// Quantized nomic-ai/nomic-embed-text-v1.5
    NomicEmbedTextV15Q,
    /// sentence-transformers/paraphrase-multilingual-MiniLM-L12-v2
    ParaphraseMLMiniLML12V2,
    /// Quantized sentence-transformers/paraphrase-multilingual-MiniLM-L12-v2
    ParaphraseMLMiniLML12V2Q,
    /// sentence-transformers/paraphrase-multilingual-mpnet-base-v2
    ParaphraseMLMpnetBaseV2,
    /// BAAI/bge-small-zh-v1.5
    BGESmallZHV15,
    /// intfloat/multilingual-e5-small
    MultilingualE5Small,
    /// intfloat/multilingual-e5-base
    MultilingualE5Base,
    /// intfloat/multilingual-e5-large
    MultilingualE5Large,
    /// mixedbread-ai/mxbai-embed-large-v1
    MxbaiEmbedLargeV1,
    /// Quantized mixedbread-ai/mxbai-embed-large-v1
    MxbaiEmbedLargeV1Q,
    /// Alibaba-NLP/gte-base-en-v1.5
    GTEBaseENV15,
    /// Quantized Alibaba-NLP/gte-base-en-v1.5
    GTEBaseENV15Q,
    /// Alibaba-NLP/gte-large-en-v1.5
    GTELargeENV15,
    /// Quantized Alibaba-NLP/gte-large-en-v1.5
    GTELargeENV15Q,
}

/// The engine's model that stands for `model`.
pub open spec fn engine_model(model: JSEmbeddingModel) -> EmbeddingModel {
    match model {
        JSEmbeddingModel::AllMiniLML6V2 => EmbeddingModel::AllMiniLML6V2,
        JSEmbeddingModel::AllMiniLML6V2Q => EmbeddingModel::AllMiniLML6V2Q,
        JSEmbeddingModel::AllMiniLML12V2 => EmbeddingModel::AllMiniLML12V2,
        JSEmbeddingModel::AllMiniLML12V2Q => EmbeddingModel::AllMiniLML12V2Q,
        JSEmbeddingModel::BGEBaseENV15 => EmbeddingModel::BGEBaseENV15,
        JSEmbeddingModel::BGEBaseENV15Q => EmbeddingModel::BGEBaseENV15Q,
        JSEmbeddingModel::BGELargeENV15 => EmbeddingModel::BGELargeENV15,
        JSEmbeddingModel::BGELargeENV15Q => EmbeddingModel::BGELargeENV15Q,
        JSEmbeddingModel::BGESmallENV15 => EmbeddingModel::BGESmallENV15,
        JSEmbeddingModel::BGESmallENV15Q => EmbeddingModel::BGESmallENV15Q,
        JSEmbeddingModel::NomicEmbedTextV1 => EmbeddingModel::NomicEmbedTextV1,
        JSEmbeddingModel::NomicEmbedTextV15 => EmbeddingModel::NomicEmbedTextV15,
        JSEmbeddingModel::NomicEmbedTextV15Q => EmbeddingModel::NomicEmbedTextV15Q,
        JSEmbeddingModel::ParaphraseMLMiniLML12V2 => EmbeddingModel::ParaphraseMLMiniLML12V2,
        JSEmbeddingModel::ParaphraseMLMiniLML12V2Q => EmbeddingModel::ParaphraseMLMiniLML12V2Q,
        JSEmbeddingModel::ParaphraseMLMpnetBaseV2 => EmbeddingModel::ParaphraseMLMpnetBaseV2,
        JSEmbeddingModel::BGESmallZHV15 => EmbeddingModel::BGESmallZHV15,
        JSEmbeddingModel::MultilingualE5Small => EmbeddingModel::MultilingualE5Small,
        JSEmbeddingModel::MultilingualE5Base => EmbeddingModel::MultilingualE5Base,
        JSEmbeddingModel::MultilingualE5Large => EmbeddingModel::MultilingualE5Large,
        JSEmbeddingModel::MxbaiEmbedLargeV1 => EmbeddingModel::MxbaiEmbedLargeV1,
        JSEmbeddingModel::MxbaiEmbedLargeV1Q => EmbeddingModel::MxbaiEmbedLargeV1Q,
        JSEmbeddingModel::GTEBaseENV15 => EmbeddingModel::GTEBaseENV15,
        JSEmbeddingModel::GTEBaseENV15Q => EmbeddingModel::GTEBaseENV15Q,
        JSEmbeddingModel::GTELargeENV15 => EmbeddingModel::GTELargeENV15,
        JSEmbeddingModel::GTELargeENV15Q => EmbeddingModel::GTELargeENV15Q,
    }
}

impl From<JSEmbeddingModel> for EmbeddingModel {
    fn from(model: JSEmbeddingModel) -> (engine: EmbeddingModel)
        ensures
            engine == engine_model(model),
    {
        match model {
            JSEmbeddingModel::AllMiniLML6V2 => EmbeddingModel::AllMiniLML6V2,
            JSEmbeddingModel::AllMiniLML6V2Q => EmbeddingModel::AllMiniLML6V2Q,
            JSEmbeddingModel::AllMiniLML12V2 => EmbeddingModel::AllMiniLML12V2,
            JSEmbeddingModel::AllMiniLML12V2Q => EmbeddingModel::AllMiniLML12V2Q,
            JSEmbeddingModel::BGEBaseENV15 => EmbeddingModel::BGEBaseENV15,
            JSEmbeddingModel::BGEBaseENV15Q => EmbeddingModel::BGEBaseENV15Q,
            JSEmbeddingModel::BGELargeENV15 => EmbeddingModel::BGELargeENV15,
            JSEmbeddingModel::BGELargeENV15Q => EmbeddingModel::BGELargeENV15Q,
            JSEmbeddingModel::BGESmallENV15 => EmbeddingModel::BGESmallENV15,
            JSEmbeddingModel::BGESmallENV15Q => EmbeddingModel::BGESmallENV15Q,
            JSEmbeddingModel::NomicEmbedTextV1 => EmbeddingModel::NomicEmbedTextV1,
            JSEmbeddingModel::NomicEmbedTextV15 => EmbeddingModel::NomicEmbedTextV15,
            JSEmbeddingModel::NomicEmbedTextV15Q => EmbeddingModel::NomicEmbedTextV15Q,
            JSEmbeddingModel::ParaphraseMLMiniLML12V2 => EmbeddingModel::ParaphraseMLMiniLML12V2,
            JSEmbeddingModel::ParaphraseMLMiniLML12V2Q => EmbeddingModel::ParaphraseMLMiniLML12V2Q,
            JSEmbeddingModel::ParaphraseMLMpnetBaseV2 => EmbeddingModel::ParaphraseMLMpnetBaseV2,
            JSEmbeddingModel::BGESmallZHV15 => EmbeddingModel::BGESmallZHV15,
            JSEmbeddingModel::MultilingualE5Small => EmbeddingModel::MultilingualE5Small,
            JSEmbeddingModel::MultilingualE5Base => EmbeddingModel::MultilingualE5Base,
            JSEmbeddingModel::MultilingualE5Large => EmbeddingModel::MultilingualE5Large,
            JSEmbeddingModel::MxbaiEmbedLargeV1 => EmbeddingModel::MxbaiEmbedLargeV1,
            JSEmbeddingModel::MxbaiEmbedLargeV1Q => EmbeddingModel::MxbaiEmbedLargeV1Q,
            JSEmbeddingModel::GTEBaseENV15 => EmbeddingModel::GTEBaseENV15,
            JSEmbeddingModel::GTEBaseENV15Q => EmbeddingModel::GTEBaseENV15Q,
            JSEmbeddingModel::GTELargeENV15 => EmbeddingModel::GTELargeENV15,
            JSEmbeddingModel::GTELargeENV15Q => EmbeddingModel::GTELargeENV15Q,
        }
    }
}

impl FromSpecImpl<JSEmbeddingModel> for EmbeddingModel {
    open spec fn obeys_from_spec() -> bool {
        true
    }

    open spec fn from_spec(model: JSEmbeddingModel) -> EmbeddingModel {
        engine_model(model)
    }
}

/// Distinct models of the catalog stand for distinct models of the engine.
pub proof fn engine_model_is_injective(a: JSEmbeddingModel, b: JSEmbeddingModel)
    requires
        engine_model(a) == engine_model(b),
    ensures
        a == b,
{
}

impl JSEmbeddingModel {
    /// The identifier of this model: the name it is selected by.
    pub open spec fn identifier(self) -> Seq<char> {
        match self {
            JSEmbeddingModel::AllMiniLML6V2 => "AllMiniLML6V2"@,
            JSEmbeddingModel::AllMiniLML6V2Q => "AllMiniLML6V2Q"@,
            JSEmbeddingModel::AllMiniLML12V2 => "AllMiniLML12V2"@,
            JSEmbeddingModel::AllMiniLML12V2Q => "AllMiniLML12V2Q"@,
            JSEmbeddingModel::BGEBaseENV15 => "BGEBaseENV15"@,
            JSEmbeddingModel::BGEBaseENV15Q => "BGEBaseENV15Q"@,
            JSEmbeddingModel::BGELargeENV15 => "BGELargeENV15"@,
            JSEmbeddingModel::BGELargeENV15Q => "BGELargeENV15Q"@,
            JSEmbeddingModel::BGESmallENV15 => "BGESmallENV15"@,
            JSEmbeddingModel::BGESmallENV15Q => "BGESmallENV15Q"@,
            JSEmbeddingModel::NomicEmbedTextV1 => "NomicEmbedTextV1"@,
            JSEmbeddingModel::NomicEmbedTextV15 => "NomicEmbedTextV15"@,
            JSEmbeddingModel::NomicEmbedTextV15Q => "NomicEmbedTextV15Q"@,
            JSEmbeddingModel::ParaphraseMLMiniLML12V2 => "ParaphraseMLMiniLML12V2"@,
            JSEmbeddingModel::ParaphraseMLMiniLML12V2Q => "ParaphraseMLMiniLML12V2Q"@,
            JSEmbeddingModel::ParaphraseMLMpnetBaseV2 => "ParaphraseMLMpnetBaseV2"@,
            JSEmbeddingModel::BGESmallZHV15 => "BGESmallZHV15"@,
            JSEmbeddingModel::MultilingualE5Small => "MultilingualE5Small"@,
            JSEmbeddingModel::MultilingualE5Base => "MultilingualE5Base"@,
            JSEmbeddingModel::MultilingualE5Large => "MultilingualE5Large"@,
            JSEmbeddingModel::MxbaiEmbedLargeV1 => "MxbaiEmbedLargeV1"@,
            JSEmbeddingModel::MxbaiEmbedLargeV1Q => "MxbaiEmbedLargeV1Q"@,
            JSEmbeddingModel::GTEBaseENV15 => "GTEBaseENV15"@,
            JSEmbeddingModel::GTEBaseENV15Q => "GTEBaseENV15Q"@,
            JSEmbeddingModel::GTELargeENV15 => "GTELargeENV15"@,
            JSEmbeddingModel::GTELargeENV15Q => "GTELargeENV15Q"@,
        }
    }

    /// The length of every vector that this model produces.
    pub open spec fn dim(self) -> nat {
        match self {
            JSEmbeddingModel::AllMiniLML6V2
            | JSEmbeddingModel::AllMiniLML6V2Q
            | JSEmbeddingModel::AllMiniLML12V2
            | JSEmbeddingModel::AllMiniLML12V2Q
            | JSEmbeddingModel::BGESmallENV15
            | JSEmbeddingModel::BGESmallENV15Q
            | JSEmbeddingModel::ParaphraseMLMiniLML12V2
            | JSEmbeddingModel::ParaphraseMLMiniLML12V2Q
            | JSEmbeddingModel::MultilingualE5Small => 384,
            JSEmbeddingModel::BGESmallZHV15 => 512,
            JSEmbeddingModel::BGEBaseENV15
            | JSEmbeddingModel::BGEBaseENV15Q
            | JSEmbeddingModel::NomicEmbedTextV1
            | JSEmbeddingModel::NomicEmbedTextV15
            | JSEmbeddingModel::NomicEmbedTextV15Q
            | JSEmbeddingModel::ParaphraseMLMpnetBaseV2
            | JSEmbeddingModel::MultilingualE5Base
            | JSEmbeddingModel::GTEBaseENV15
            | JSEmbeddingModel::GTEBaseENV15Q => 768,
            JSEmbeddingModel::BGELargeENV15
            | JSEmbeddingModel::BGELargeENV15Q
            | JSEmbeddingModel::MultilingualE5Large
            | JSEmbeddingModel::MxbaiEmbedLargeV1
            | JSEmbeddingModel::MxbaiEmbedLargeV1Q
            | JSEmbeddingModel::GTELargeENV15
            | JSEmbeddingModel::GTELargeENV15Q => 1024,
        }
    }

    /// The identifier of this model.
    pub fn name(self) -> (text: &'static str)
        ensures
            text@ == self.identifier(),
    {
        match self {
            JSEmbeddingModel::AllMiniLML6V2 => "AllMiniLML6V2",
            JSEmbeddingModel::AllMiniLML6V2Q => "AllMiniLML6V2Q",
            JSEmbeddingModel::AllMiniLML12V2 => "AllMiniLML12V2",
            JSEmbeddingModel::AllMiniLML12V2Q => "AllMiniLML12V2Q",
            JSEmbeddingModel::BGEBaseENV15 => "BGEBaseENV15",
            JSEmbeddingModel::BGEBaseENV15Q => "BGEBaseENV15Q",
            JSEmbeddingModel::BGELargeENV15 => "BGELargeENV15",
            JSEmbeddingModel::BGELargeENV15Q => "BGELargeENV15Q",
            JSEmbeddingModel::BGESmallENV15 => "BGESmallENV15",
            JSEmbeddingModel::BGESmallENV15Q => "BGESmallENV15Q",
            JSEmbeddingModel::NomicEmbedTextV1 => "NomicEmbedTextV1",
            JSEmbeddingModel::NomicEmbedTextV15 => "NomicEmbedTextV15",
            JSEmbeddingModel::NomicEmbedTextV15Q => "NomicEmbedTextV15Q",
            JSEmbeddingModel::ParaphraseMLMiniLML12V2 => "ParaphraseMLMiniLML12V2",
            JSEmbeddingModel::ParaphraseMLMiniLML12V2Q => "ParaphraseMLMiniLML12V2Q",
            JSEmbeddingModel::ParaphraseMLMpnetBaseV2 => "ParaphraseMLMpnetBaseV2",
            JSEmbeddingModel::BGESmallZHV15 => "BGESmallZHV15",
            JSEmbeddingModel::MultilingualE5Small => "MultilingualE5Small",
            JSEmbeddingModel::MultilingualE5Base => "MultilingualE5Base",
            JSEmbeddingModel::MultilingualE5Large => "MultilingualE5Large",
            JSEmbeddingModel::MxbaiEmbedLargeV1 => "MxbaiEmbedLargeV1",
            JSEmbeddingModel::MxbaiEmbedLargeV1Q => "MxbaiEmbedLargeV1Q",
            JSEmbeddingModel::GTEBaseENV15 => "GTEBaseENV15",
            JSEmbeddingModel::GTEBaseENV15Q => "GTEBaseENV15Q",
            JSEmbeddingModel::GTELargeENV15 => "GTELargeENV15",
            JSEmbeddingModel::GTELargeENV15Q => "GTELargeENV15Q",
        }
    }

    /// The length of every vector that this model produces.
    pub fn dimension(self) -> (width: usize)
        ensures
            width == self.dim(),
    {
        match self {
            JSEmbeddingModel::AllMiniLML6V2
            | JSEmbeddingModel::AllMiniLML6V2Q
            | JSEmbeddingModel::AllMiniLML12V2
            | JSEmbeddingModel::AllMiniLML12V2Q
            | JSEmbeddingModel::BGESmallENV15
            | JSEmbeddingModel::BGESmallENV15Q
            | JSEmbeddingModel::ParaphraseMLMiniLML12V2
            | JSEmbeddingModel::ParaphraseMLMiniLML12V2Q
            | JSEmbeddingModel::MultilingualE5Small => 384,
            JSEmbeddingModel::BGESmallZHV15 => 512,
            JSEmbeddingModel::BGEBaseENV15
            | JSEmbeddingModel::BGEBaseENV15Q
            | JSEmbeddingModel::NomicEmbedTextV1
            | JSEmbeddingModel::NomicEmbedTextV15
            | JSEmbeddingModel::NomicEmbedTextV15Q
            | JSEmbeddingModel::ParaphraseMLMpnetBaseV2
            | JSEmbeddingModel::MultilingualE5Base
            | JSEmbeddingModel::GTEBaseENV15
            | JSEmbeddingModel::GTEBaseENV15Q => 768,
            JSEmbeddingModel::BGELargeENV15
            | JSEmbeddingModel::BGELargeENV15Q
            | JSEmbeddingModel::MultilingualE5Large
            | JSEmbeddingModel::MxbaiEmbedLargeV1
            | JSEmbeddingModel::MxbaiEmbedLargeV1Q
            | JSEmbeddingModel::GTELargeENV15
            | JSEmbeddingModel::GTELargeENV15Q => 1024,
        }
    }

    /// The model that `name` identifies. A name that identifies none is a
    /// configuration failure about the model identifier.
    pub fn from_name(name: &str) -> (found: Result<JSEmbeddingModel, EmbedError>)
        ensures
            found == match named(name@) {
                Some(model) => Ok::<JSEmbeddingModel, EmbedError>(model),
                None => Err(EmbedError::Configuration(Setting::ModelIdentifier)),
            },
    {
        let all = catalog();
        let mut i: usize = 0;
        while i < all.len()
            invariant
                all@ == all_models(),
                i <= all.len(),
                forall|k: int| 0 <= k < i ==> (#[trigger] all@[k]).identifier() != name@,
            decreases all.len() - i,
        {
            let model = all[i];
            if same_text(name, model.name()) {
                proof {
                    identifiers_are_distinct(model, named(name@).unwrap());
                }
                return Ok(model);
            }
            i += 1;
        }
        proof {
            assert forall|model: JSEmbeddingModel| model.identifier() != name@ by {
                catalog_is_complete(model);
                let k = choose|k: int| 0 <= k < all@.len() && all@[k] == model;
                assert(all@[k].identifier() != name@);
            }
        }
        Err(EmbedError::Configuration(Setting::ModelIdentifier))
    }
}

/// The model whose identifier is `text`, if there is one.
pub open spec fn named(text: Seq<char>) -> Option<JSEmbeddingModel> {
    if exists|model: JSEmbeddingModel| model.identifier() == text {
        Some(choose|model: JSEmbeddingModel| model.identifier() == text)
    } else {
        None
    }
}

/// Every model of the catalog, in the order of its declaration.
pub open spec fn all_models() -> Seq<JSEmbeddingModel> {
    seq![
        JSEmbeddingModel::AllMiniLML6V2,
        JSEmbeddingModel::AllMiniLML6V2Q,
        JSEmbeddingModel::AllMiniLML12V2,
        JSEmbeddingModel::AllMiniLML12V2Q,
        JSEmbeddingModel::BGEBaseENV15,
        JSEmbeddingModel::BGEBaseENV15Q,
        JSEmbeddingModel::BGELargeENV15,
        JSEmbeddingModel::BGELargeENV15Q,
        JSEmbeddingModel::BGESmallENV15,
        JSEmbeddingModel::BGESmallENV15Q,
        JSEmbeddingModel::NomicEmbedTextV1,
        JSEmbeddingModel::NomicEmbedTextV15,
        JSEmbeddingModel::NomicEmbedTextV15Q,
        JSEmbeddingModel::ParaphraseMLMiniLML12V2,
        JSEmbeddingModel::ParaphraseMLMiniLML12V2Q,
        JSEmbeddingModel::ParaphraseMLMpnetBaseV2,
        JSEmbeddingModel::BGESmallZHV15,
        JSEmbeddingModel::MultilingualE5Small,
        JSEmbeddingModel::MultilingualE5Base,
        JSEmbeddingModel::MultilingualE5Large,
        JSEmbeddingModel::MxbaiEmbedLargeV1,
        JSEmbeddingModel::MxbaiEmbedLargeV1Q,
        JSEmbeddingModel::GTEBaseENV15,
        JSEmbeddingModel::GTEBaseENV15Q,
        JSEmbeddingModel::GTELargeENV15,
        JSEmbeddingModel::GTELargeENV15Q,
    ]
}

/// Every model of the catalog, in the order of its declaration.
pub fn catalog() -> (all: Vec<JSEmbeddingModel>)
    ensures
        all@ == all_models(),
{
    vec![
        JSEmbeddingModel::AllMiniLML6V2,
        JSEmbeddingModel::AllMiniLML6V2Q,
        JSEmbeddingModel::AllMiniLML12V2,
        JSEmbeddingModel::AllMiniLML12V2Q,
        JSEmbeddingModel::BGEBaseENV15,
        JSEmbeddingModel::BGEBaseENV15Q,
        JSEmbeddingModel::BGELargeENV15,
        JSEmbeddingModel::BGELargeENV15Q,
        JSEmbeddingModel::BGESmallENV15,
        JSEmbeddingModel::BGESmallENV15Q,
        JSEmbeddingModel::NomicEmbedTextV1,
        JSEmbeddingModel::NomicEmbedTextV15,
        JSEmbeddingModel::NomicEmbedTextV15Q,
        JSEmbeddingModel::ParaphraseMLMiniLML12V2,
        JSEmbeddingModel::ParaphraseMLMiniLML12V2Q,
        JSEmbeddingModel::ParaphraseMLMpnetBaseV2,
        JSEmbeddingModel::BGESmallZHV15,
        JSEmbeddingModel::MultilingualE5Small,
        JSEmbeddingModel::MultilingualE5Base,
        JSEmbeddingModel::MultilingualE5Large,
        JSEmbeddingModel::MxbaiEmbedLargeV1,
        JSEmbeddingModel::MxbaiEmbedLargeV1Q,
        JSEmbeddingModel::GTEBaseENV15,
        JSEmbeddingModel::GTEBaseENV15Q,
        JSEmbeddingModel::GTELargeENV15,
        JSEmbeddingModel::GTELargeENV15Q,
    ]
}

/// No model is missing from the catalog.
pub proof fn catalog_is_complete(model: JSEmbeddingModel)
    ensures
        all_models().contains(model),
{
    match model {
        JSEmbeddingModel::AllMiniLML6V2 => assert(all_models()[0] == model),
        JSEmbeddingModel::AllMiniLML6V2Q => assert(all_models()[1] == model),
        JSEmbeddingModel::AllMiniLML12V2 => assert(all_models()[2] == model),
        JSEmbeddingModel::AllMiniLML12V2Q => assert(all_models()[3] == model),
        JSEmbeddingModel::BGEBaseENV15 => assert(all_models()[4] == model),
        JSEmbeddingModel::BGEBaseENV15Q => assert(all_models()[5] == model),
        JSEmbeddingModel::BGELargeENV15 => assert(all_models()[6] == model),
        JSEmbeddingModel::BGELargeENV15Q => assert(all_models()[7] == model),
        JSEmbeddingModel::BGESmallENV15 => assert(all_models()[8] == model),
        JSEmbeddingModel::BGESmallENV15Q => assert(all_models()[9] == model),
        JSEmbeddingModel::NomicEmbedTextV1 => assert(all_models()[10] == model),
        JSEmbeddingModel::NomicEmbedTextV15 => assert(all_models()[11] == model),
        JSEmbeddingModel::NomicEmbedTextV15Q => assert(all_models()[12] == model),
        JSEmbeddingModel::ParaphraseMLMiniLML12V2 => assert(all_models()[13] == model),
        JSEmbeddingModel::ParaphraseMLMiniLML12V2Q => assert(all_models()[14] == model),
        JSEmbeddingModel::ParaphraseMLMpnetBaseV2 => assert(all_models()[15] == model),
        JSEmbeddingModel::BGESmallZHV15 => assert(all_models()[16] == model),
        JSEmbeddingModel::MultilingualE5Small => assert(all_models()[17] == model),
        JSEmbeddingModel::MultilingualE5Base => assert(all_models()[18] == model),
        JSEmbeddingModel::MultilingualE5Large => assert(all_models()[19] == model),
        JSEmbeddingModel::MxbaiEmbedLargeV1 => assert(all_models()[20] == model),
        JSEmbeddingModel::MxbaiEmbedLargeV1Q => assert(all_models()[21] == model),
        JSEmbeddingModel::GTEBaseENV15 => assert(all_models()[22] == model),
        JSEmbeddingModel::GTEBaseENV15Q => assert(all_models()[23] == model),
        JSEmbeddingModel::GTELargeENV15 => assert(all_models()[24] == model),
        JSEmbeddingModel::GTELargeENV15Q => assert(all_models()[25] == model),
    }
}

/// No two models share an identifier.
pub proof fn identifiers_are_distinct(a: JSEmbeddingModel, b: JSEmbeddingModel)
    requires
        a.identifier() == b.identifier(),
    ensures
        a == b,
{
    // The length and the characters at five positions tell any two identifiers apart.
    let (s, t) = (a.identifier(), b.identifier());
    assert(s.len() == t.len());
    assert(s[0] == t[0] && s[3] == t[3] && s[8] == t[8] && s[10] == t[10] && s[15] == t[15]);
    reveal_strlit("AllMiniLML6V2");
    reveal_strlit("AllMiniLML6V2Q");
    reveal_strlit("AllMiniLML12V2");
    reveal_strlit("AllMiniLML12V2Q");
    reveal_strlit("BGEBaseENV15");
    reveal_strlit("BGEBaseENV15Q");
    reveal_strlit("BGELargeENV15");
    reveal_strlit("BGELargeENV15Q");
    reveal_strlit("BGESmallENV15");
    reveal_strlit("BGESmallENV15Q");
    reveal_strlit("NomicEmbedTextV1");
    reveal_strlit("NomicEmbedTextV15");
    reveal_strlit("NomicEmbedTextV15Q");
    reveal_strlit("ParaphraseMLMiniLML12V2");
    reveal_strlit("ParaphraseMLMiniLML12V2Q");
    reveal_strlit("ParaphraseMLMpnetBaseV2");
    reveal_strlit("BGESmallZHV15");
    reveal_strlit("MultilingualE5Small");
    reveal_strlit("MultilingualE5Base");
    reveal_strlit("MultilingualE5Large");
    reveal_strlit("MxbaiEmbedLargeV1");
    reveal_strlit("MxbaiEmbedLargeV1Q");
    reveal_strlit("GTEBaseENV15");
    reveal_strlit("GTEBaseENV15Q");
    reveal_strlit("GTELargeENV15");
    reveal_strlit("GTELargeENV15Q");
}

/// An identifier leads back to the model it was taken from.
pub proof fn identifier_names_its_model(model: JSEmbeddingModel)
    ensures
        named(model.identifier()) == Some(model),
{
    identifiers_are_distinct(model, named(model.identifier()).unwrap());
}

/// Whether two texts hold the same characters.
pub fn same_text(a: &str, b: &str) -> (same: bool)
    ensures
        same == (a@ == b@),
{
    let n = a.unicode_len();
    if n != b.unicode_len() {
        return false;
    }
    let mut i: usize = 0;
    while i < n
        invariant
            n == a@.len(),
            n == b@.len(),
            i <= n,
            forall|k: int| 0 <= k < i ==> a@[k] == b@[k],
        decreases n - i,
    {
        if a.get_char(i) != b.get_char(i) {
            return false;
        }
        i += 1;
    }
    proof {
        assert(a@ =~= b@);
    }
    true
}

} // verus!
