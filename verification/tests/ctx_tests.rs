use std::path::PathBuf;

use api_server::ctx::{Command, Ctx, Phase};
use api_server::error::{ApiError, ErrorCode};
use api_server::qdrant::ModelInfo;
use api_server::store::{CtxStore, Store};

// Handles stand in as plain values: library, task sender, AI handler, download hub.
type TestCtx = Ctx<Store, String, u8, u16, u32>;

fn new_ctx() -> TestCtx {
    Ctx::new(PathBuf::from("/data"), PathBuf::from("/resources"), Store::new(PathBuf::from("/data/store.json")))
}

fn model(name: &str, dim: Option<usize>) -> Result<ModelInfo, ApiError> {
    Ok(ModelInfo { collection_name: name.to_string(), dim })
}

fn is_reply_ok(c: &Command) -> bool {
    matches!(c, Command::Reply(Ok(())))
}

fn reply_err(c: Command) -> ApiError {
    match c {
        Command::Reply(Err(e)) => e,
        _ => panic!("expected an error reply"),
    }
}

/// Runs a load of `id` to its end, the database of the library running as `pid`.
fn load(ctx: &mut TestCtx, id: &str, pid: u32) -> Command {
    let mut c = ctx.load_library(id);
    if matches!(c, Command::SendCancelAll) {
        c = ctx.on_tasks_cancelled(Err("channel closed".to_string()));
    }
    assert!(matches!(c, Command::InitTaskPool));
    let c = ctx.on_task_pool_ready(7);
    assert!(matches!(c, Command::SaveStore));
    let c = ctx.on_store_saved();
    match &c {
        Command::OpenLibrary(opened) => assert_eq!(opened, id),
        _ => panic!("expected OpenLibrary"),
    }
    let c = ctx.on_library_opened(format!("library {}", id), pid);
    assert!(matches!(c, Command::SaveStore));
    let c = ctx.on_store_saved();
    assert!(matches!(c, Command::SaveStore));
    let c = ctx.on_store_saved();
    assert!(matches!(c, Command::InitDownloadHub));
    let c = ctx.on_download_hub_ready(99);
    assert!(matches!(c, Command::InitAiHandler));
    let c = ctx.on_ai_handler_ready(Ok(5));
    assert!(matches!(c, Command::ResolveLanguageModel));
    let c = ctx.on_language_model_resolved(model("text-col", Some(768)));
    assert!(matches!(c, Command::ResolveVisionModel));
    let c = ctx.on_vision_model_resolved(model("image-col", Some(512)));
    match &c {
        Command::EnsureCollection(name, dim) => {
            assert_eq!(name, "text-col");
            assert_eq!(*dim, 768);
        },
        _ => panic!("expected EnsureCollection"),
    }
    let c = ctx.on_collection_checked();
    match &c {
        Command::EnsureCollection(name, dim) => {
            assert_eq!(name, "image-col");
            assert_eq!(*dim, 512);
        },
        _ => panic!("expected EnsureCollection"),
    }
    ctx.on_collection_checked()
}

#[test]
fn new_context_has_nothing_loaded() {
    let ctx = new_ctx();
    assert!(matches!(ctx.phase(), Phase::Idle));
    let e = ctx.library().unwrap_err();
    assert_eq!(e.code, ErrorCode::BadRequest);
    assert_eq!(e.message, "No current library is set");
    assert_eq!(ctx.task_tx().unwrap_err().message, "No task tx is set");
    assert_eq!(ctx.ai_handler().unwrap_err().message, "No ai handler is set");
    assert_eq!(ctx.download_reporter_hub().unwrap_err().message, "No download reporter is set");
    assert_eq!(ctx.download_status_hub().unwrap_err().message, "No download status is set");
    assert_eq!(ctx.library_id_in_store(), None);
    assert_eq!(ctx.get_local_data_root(), &PathBuf::from("/data"));
    assert_eq!(ctx.get_resources_dir(), &PathBuf::from("/resources"));
}

#[test]
fn load_sets_library_and_records_ids() {
    let mut ctx = new_ctx();
    let done = load(&mut ctx, "lib-1", 4242);
    assert!(is_reply_ok(&done));
    assert!(matches!(ctx.phase(), Phase::Idle));
    assert_eq!(ctx.library().unwrap(), "library lib-1");
    assert_eq!(*ctx.task_tx().unwrap(), 7);
    assert_eq!(*ctx.ai_handler().unwrap(), 5);
    assert_eq!(*ctx.download_reporter_hub().unwrap(), 99);
    assert_eq!(ctx.library_id_in_store(), Some("lib-1".to_string()));
    assert_eq!(ctx.store().get("current-qdrant-pid"), Some("4242".to_string()));
}

#[test]
fn unload_kills_recorded_pid_and_clears() {
    let mut ctx = new_ctx();
    assert!(is_reply_ok(&load(&mut ctx, "lib-1", 4242)));
    let c = ctx.unload_library();
    assert!(matches!(c, Command::SendCancelAll));
    let c = ctx.on_tasks_cancelled(Ok(()));
    assert!(matches!(c, Command::KillQdrant(4242)));
    let c = ctx.on_qdrant_killed(Ok(()));
    assert!(matches!(c, Command::ShutdownAiHandler));
    let c = ctx.on_ai_handler_shut_down(Ok(()));
    assert!(matches!(c, Command::SaveStore));
    let c = ctx.on_store_saved();
    assert!(is_reply_ok(&c));
    assert!(ctx.library().is_err());
    assert!(ctx.task_tx().is_err());
    // the AI handler is shut down but stays set
    assert!(ctx.ai_handler().is_ok());
    assert_eq!(ctx.library_id_in_store(), None);
    assert_eq!(ctx.store().get("current-qdrant-pid"), None);
    // a new load may start
    assert!(matches!(ctx.load_library("lib-2"), Command::InitTaskPool));
}

#[test]
fn unload_with_nothing_loaded() {
    let mut ctx = new_ctx();
    let c = ctx.unload_library();
    assert!(matches!(c, Command::SaveStore));
    assert!(is_reply_ok(&ctx.on_store_saved()));
}

#[test]
fn unload_skips_a_pid_that_is_no_number() {
    let mut store = Store::new(PathBuf::from("/s"));
    store.insert("current-qdrant-pid", "not-a-pid").unwrap();
    store.insert("current-library-id", "lib-9").unwrap();
    let mut ctx: TestCtx = Ctx::new(PathBuf::from("/d"), PathBuf::from("/r"), store);
    let c = ctx.unload_library();
    assert!(matches!(c, Command::SaveStore));
    assert_eq!(ctx.store().get("current-qdrant-pid"), None);
    assert_eq!(ctx.library_id_in_store(), None);
    assert!(is_reply_ok(&ctx.on_store_saved()));
}

#[test]
fn requests_while_busy_are_refused() {
    let mut ctx = new_ctx();
    assert!(matches!(ctx.load_library("lib-1"), Command::InitTaskPool));
    let e = reply_err(ctx.load_library("lib-2"));
    assert_eq!(e.code, ErrorCode::Conflict);
    assert_eq!(e.message, "App is busy");
    let e = reply_err(ctx.unload_library());
    assert_eq!(e.code, ErrorCode::Conflict);
    assert!(matches!(ctx.phase(), Phase::LoadTaskPool(_)));
}

#[test]
fn failed_kill_ends_unload_and_clears_busy() {
    let mut ctx = new_ctx();
    assert!(is_reply_ok(&load(&mut ctx, "lib-1", 17)));
    assert!(matches!(ctx.unload_library(), Command::SendCancelAll));
    assert!(matches!(ctx.on_tasks_cancelled(Ok(())), Command::KillQdrant(17)));
    let e = reply_err(ctx.on_qdrant_killed(Err("no such process".to_string())));
    assert_eq!(e.code, ErrorCode::InternalServerError);
    assert_eq!(e.message, "Failed to kill qdrant: no such process");
    assert!(matches!(ctx.phase(), Phase::Idle));
    // the library stays, and a new request is taken (the tasks were already cancelled)
    assert!(ctx.library().is_ok());
    assert!(matches!(ctx.unload_library(), Command::KillQdrant(17)));
}

#[test]
fn failed_cancel_keeps_sender() {
    let mut ctx = new_ctx();
    assert!(is_reply_ok(&load(&mut ctx, "lib-1", 17)));
    assert!(matches!(ctx.unload_library(), Command::SendCancelAll));
    let e = reply_err(ctx.on_tasks_cancelled(Err("closed".to_string())));
    assert_eq!(e.message, "Failed to cancel tasks: closed");
    assert!(ctx.task_tx().is_ok());
}

#[test]
fn failed_shutdown_ends_unload() {
    let mut ctx = new_ctx();
    assert!(is_reply_ok(&load(&mut ctx, "lib-1", 17)));
    ctx.unload_library();
    ctx.on_tasks_cancelled(Ok(()));
    assert!(matches!(ctx.on_qdrant_killed(Ok(())), Command::ShutdownAiHandler));
    let e = reply_err(ctx.on_ai_handler_shut_down(Err("timeout".to_string())));
    assert_eq!(e.message, "Failed to shutdown AI handler: timeout");
    assert_eq!(ctx.store().get("current-qdrant-pid"), None);
    assert!(ctx.library().is_ok());
}

#[test]
fn failed_ai_handler_ends_load() {
    let mut ctx = new_ctx();
    ctx.load_library("lib-1");
    ctx.on_task_pool_ready(1);
    ctx.on_store_saved();
    ctx.on_library_opened("L".to_string(), 3);
    ctx.on_store_saved();
    ctx.on_store_saved();
    ctx.on_download_hub_ready(2);
    let e = reply_err(ctx.on_ai_handler_ready(Err("no model".to_string())));
    assert_eq!(e.code, ErrorCode::InternalServerError);
    assert_eq!(e.message, "Failed to init AI handler: no model");
    assert!(matches!(ctx.phase(), Phase::Idle));
    assert!(matches!(ctx.load_library("lib-1"), Command::SendCancelAll));
}

#[test]
fn model_without_dim_ends_load() {
    let mut ctx = new_ctx();
    ctx.load_library("lib-1");
    ctx.on_task_pool_ready(1);
    ctx.on_store_saved();
    ctx.on_library_opened("L".to_string(), 3);
    ctx.on_store_saved();
    ctx.on_store_saved();
    ctx.on_download_hub_ready(2);
    ctx.on_ai_handler_ready(Ok(4));
    ctx.on_language_model_resolved(model("t", None));
    let e = reply_err(ctx.on_vision_model_resolved(model("v", Some(1))));
    assert_eq!(e.message, "Language model do not have dim");
    assert!(matches!(ctx.phase(), Phase::Idle));
    assert!(matches!(ctx.unload_library(), Command::SendCancelAll));
}

#[test]
fn failed_text_model_lookup_skips_image_model() {
    let mut ctx = new_ctx();
    ctx.load_library("lib-1");
    ctx.on_task_pool_ready(1);
    ctx.on_store_saved();
    ctx.on_library_opened("L".to_string(), 3);
    ctx.on_store_saved();
    ctx.on_store_saved();
    ctx.on_download_hub_ready(2);
    assert!(matches!(ctx.on_ai_handler_ready(Ok(4)), Command::ResolveLanguageModel));
    let e = reply_err(ctx.on_language_model_resolved(Err(ApiError {
        code: ErrorCode::NotFound,
        message: "no such model".to_string(),
    })));
    assert_eq!(e.code, ErrorCode::NotFound);
    assert_eq!(e.message, "no such model");
    assert!(matches!(ctx.phase(), Phase::Idle));
}

#[test]
fn second_load_cancels_old_tasks_first() {
    let mut ctx = new_ctx();
    assert!(is_reply_ok(&load(&mut ctx, "lib-1", 1)));
    assert!(is_reply_ok(&load(&mut ctx, "lib-2", 2)));
    assert_eq!(ctx.library().unwrap(), "library lib-2");
    assert_eq!(ctx.library_id_in_store(), Some("lib-2".to_string()));
    assert_eq!(ctx.store().get("current-qdrant-pid"), Some("2".to_string()));
}

#[test]
fn qdrant_info_needs_a_library() {
    let ctx = new_ctx();
    let e = ctx.qdrant_info(model("t", Some(1)), None).unwrap_err();
    assert_eq!(e.message, "No current library is set");
}
