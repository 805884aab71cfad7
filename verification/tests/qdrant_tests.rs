use api_server::error::{ApiError, ErrorCode};
use api_server::qdrant::{qdrant_server_info, ModelInfo};

fn model(name: &str, dim: Option<usize>) -> Result<ModelInfo, ApiError> {
    Ok(ModelInfo { collection_name: name.to_string(), dim })
}

fn lookup_error(msg: &str) -> Result<ModelInfo, ApiError> {
    Err(ApiError { code: ErrorCode::NotFound, message: msg.to_string() })
}

#[test]
fn info_from_both_models() {
    let info = qdrant_server_info(true, model("text-col", Some(768)), Some(model("image-col", Some(512)))).unwrap();
    assert_eq!(info.language_collection.name, "text-col");
    assert_eq!(info.language_collection.dim, 768);
    assert_eq!(info.vision_collection.name, "image-col");
    assert_eq!(info.vision_collection.dim, 512);
}

#[test]
fn no_library_comes_first() {
    let e = qdrant_server_info(false, lookup_error("x"), None).unwrap_err();
    assert_eq!(e.code, ErrorCode::BadRequest);
    assert_eq!(e.message, "No current library is set");
}

#[test]
fn lookup_errors_in_order() {
    let e = qdrant_server_info(true, lookup_error("text"), None).unwrap_err();
    assert_eq!(e.message, "text");
    let e = qdrant_server_info(true, model("t", None), Some(lookup_error("image"))).unwrap_err();
    assert_eq!(e.code, ErrorCode::NotFound);
    assert_eq!(e.message, "image");
}

#[test]
fn missing_dims() {
    let e = qdrant_server_info(true, model("t", None), Some(model("v", None))).unwrap_err();
    assert_eq!(e.code, ErrorCode::InternalServerError);
    assert_eq!(e.message, "Language model do not have dim");
    let e = qdrant_server_info(true, model("t", Some(3)), Some(model("v", None))).unwrap_err();
    assert_eq!(e.code, ErrorCode::InternalServerError);
    assert_eq!(e.message, "Vision model do not have dim");
}
