use vstd::prelude::*;

use crate::error::{api_error_text, ApiError, ApiErrorView, ErrorCode};

verus! {

/// What the library knows of an embedding model: the vector collection that goes with
/// it and the dimension of its vectors, where the model declares one.
#[derive(Debug)]
pub struct ModelInfo {
    pub collection_name: String,
    pub dim: Option<usize>,
}

pub struct ModelInfoView {
    pub collection_name: Seq<char>,
    pub dim: Option<usize>,
}

impl View for ModelInfo {
    type V = ModelInfoView;

    open spec fn view(&self) -> ModelInfoView {
        ModelInfoView { collection_name: self.collection_name@, dim: self.dim }
    }
}

/// The view of the outcome of a model lookup.
pub open spec fn lookup_view(r: Result<ModelInfo, ApiError>) -> Result<ModelInfoView, ApiErrorView> {
    match r {
        Ok(m) => Ok(m@),
        Err(e) => Err(e@),
    }
}

/// A vector collection: its name and the dimension of its vectors.
#[derive(Debug)]
pub struct QdrantCollectionInfo {
    pub name: String,
    pub dim: usize,
}

pub struct QdrantCollectionView {
    pub name: Seq<char>,
    pub dim: usize,
}

impl View for QdrantCollectionInfo {
    type V = QdrantCollectionView;

    open spec fn view(&self) -> QdrantCollectionView {
        QdrantCollectionView { name: self.name@, dim: self.dim }
    }
}

/// The two collections of a library: one for text, one for images.
#[derive(Debug)]
pub struct QdrantServerInfo {
    pub language_collection: QdrantCollectionInfo,
    pub vision_collection: QdrantCollectionInfo,
}

pub struct QdrantServerInfoView {
    pub language_collection: QdrantCollectionView,
    pub vision_collection: QdrantCollectionView,
}

impl View for QdrantServerInfo {
    type V = QdrantServerInfoView;

    open spec fn view(&self) -> QdrantServerInfoView {
        QdrantServerInfoView {
            language_collection: self.language_collection@,
            vision_collection: self.vision_collection@,
        }
    }
}

pub open spec fn no_library_error() -> ApiErrorView {
    ApiErrorView { code: ErrorCode::BadRequest, message: "No current library is set"@ }
}

pub open spec fn no_language_dim_error() -> ApiErrorView {
    ApiErrorView { code: ErrorCode::InternalServerError, message: "Language model do not have dim"@ }
}

pub open spec fn no_vision_dim_error() -> ApiErrorView {
    ApiErrorView { code: ErrorCode::InternalServerError, message: "Vision model do not have dim"@ }
}

/// The collections of the current library, from the lookups of its two models: the first
/// failure in the order library, text model, image model, text dimension, image dimension.
/// The image model is looked up only where the library is set and the text model was
/// found; `vision` is `None` where it was not looked up.
pub open spec fn qdrant_info_outcome(
    has_library: bool,
    language: Result<ModelInfoView, ApiErrorView>,
    vision: Option<Result<ModelInfoView, ApiErrorView>>,
) -> Result<QdrantServerInfoView, ApiErrorView> {
    if !has_library {
        Err(no_library_error())
    } else {
        match language {
            Err(e) => Err(e),
            Ok(l) => match vision {
                // not reached: the image model is looked up here
                None => Err(no_vision_dim_error()),
                Some(Err(e)) => Err(e),
                Some(Ok(v)) => match l.dim {
                    None => Err(no_language_dim_error()),
                    Some(ld) => match v.dim {
                        None => Err(no_vision_dim_error()),
                        Some(vd) => Ok(
                            QdrantServerInfoView {
                                language_collection: QdrantCollectionView {
                                    name: l.collection_name,
                                    dim: ld,
                                },
                                vision_collection: QdrantCollectionView {
                                    name: v.collection_name,
                                    dim: vd,
                                },
                            },
                        ),
                    },
                },
            },
        }
    }
}

/// Whether the image model is to be looked up after the text model's lookup.
pub open spec fn needs_vision_lookup(has_library: bool, language: Result<ModelInfoView, ApiErrorView>) -> bool {
    has_library && language is Ok
}

/// See `qdrant_info_outcome`.
pub fn qdrant_server_info(
    has_library: bool,
    language: Result<ModelInfo, ApiError>,
    vision: Option<Result<ModelInfo, ApiError>>,
) -> (r: Result<QdrantServerInfo, ApiError>)
    requires
        needs_vision_lookup(has_library, lookup_view(language)) ==> vision is Some,
    ensures
        match (r, qdrant_info_outcome(has_library, lookup_view(language), match vision {
            Some(v) => Some(lookup_view(v)),
            None => None,
        })) {
            (Ok(info), Ok(expected)) => info@ == expected,
            (Err(e), Err(expected)) => e@ == expected,
            _ => false,
        },
{
    if !has_library {
        return Err(api_error_text(ErrorCode::BadRequest, "No current library is set"));
    }
    let language = match language {
        Err(e) => return Err(e),
        Ok(l) => l,
    };
    let vision = match vision {
        None => return Err(api_error_text(ErrorCode::InternalServerError, "Vision model do not have dim")),
        Some(Err(e)) => return Err(e),
        Some(Ok(v)) => v,
    };
    let language_dim = match language.dim {
        None => return Err(api_error_text(ErrorCode::InternalServerError, "Language model do not have dim")),
        Some(d) => d,
    };
    let vision_dim = match vision.dim {
        None => return Err(api_error_text(ErrorCode::InternalServerError, "Vision model do not have dim")),
        Some(d) => d,
    };
    Ok(QdrantServerInfo {
        language_collection: QdrantCollectionInfo { name: language.collection_name, dim: language_dim },
        vision_collection: QdrantCollectionInfo { name: vision.collection_name, dim: vision_dim },
    })
}

} // verus!
