use vstd::prelude::*;

use crate::decimal::{decimal_text, decimal_u32, lemma_decimal_round_trip, parse_u32, u32_to_decimal};
use crate::error::{api_error, api_error_text, ApiError, ApiErrorView, ErrorCode};
use crate::qdrant::{
    lookup_view, needs_vision_lookup, no_library_error, qdrant_info_outcome, qdrant_server_info, ModelInfo,
    ModelInfoView, QdrantServerInfo, QdrantServerInfoView,
};
use crate::store::{apply_call, StoreCall};
use crate::store::CtxStore;

verus! {

/// The store key under which the id of the current library is kept.
pub open spec fn library_id_key() -> Seq<char> {
    "current-library-id"@
}

/// The store key under which the process id of the library's vector database is kept.
pub open spec fn qdrant_pid_key() -> Seq<char> {
    "current-qdrant-pid"@
}

/// Where a load or an unload of a library stands, waiting for the outcome of a command.
#[derive(Debug)]
pub enum Phase {
    Idle,
    UnloadCancel,
    UnloadKill,
    UnloadShutdown,
    UnloadSave,
    LoadCancel(String),
    LoadTaskPool(String),
    LoadSaveId(String),
    LoadOpen(String),
    LoadSavePid(String),
    LoadSaveIdAgain(String),
    LoadDownloadHub(String),
    LoadAiHandler(String),
    LoadLanguageModel(String),
    LoadVisionModel(String, ModelInfo),
    LoadLanguageCollection(String, QdrantServerInfo),
    LoadVisionCollection(String),
}

pub enum PhaseView {
    Idle,
    UnloadCancel,
    UnloadKill,
    UnloadShutdown,
    UnloadSave,
    LoadCancel(Seq<char>),
    LoadTaskPool(Seq<char>),
    LoadSaveId(Seq<char>),
    LoadOpen(Seq<char>),
    LoadSavePid(Seq<char>),
    LoadSaveIdAgain(Seq<char>),
    LoadDownloadHub(Seq<char>),
    LoadAiHandler(Seq<char>),
    LoadLanguageModel(Seq<char>),
    LoadVisionModel(Seq<char>, ModelInfoView),
    LoadLanguageCollection(Seq<char>, QdrantServerInfoView),
    LoadVisionCollection(Seq<char>),
}

impl View for Phase {
    type V = PhaseView;

    open spec fn view(&self) -> PhaseView {
        match self {
            Phase::Idle => PhaseView::Idle,
            Phase::UnloadCancel => PhaseView::UnloadCancel,
            Phase::UnloadKill => PhaseView::UnloadKill,
            Phase::UnloadShutdown => PhaseView::UnloadShutdown,
            Phase::UnloadSave => PhaseView::UnloadSave,
            Phase::LoadCancel(id) => PhaseView::LoadCancel(id@),
            Phase::LoadTaskPool(id) => PhaseView::LoadTaskPool(id@),
            Phase::LoadSaveId(id) => PhaseView::LoadSaveId(id@),
            Phase::LoadOpen(id) => PhaseView::LoadOpen(id@),
            Phase::LoadSavePid(id) => PhaseView::LoadSavePid(id@),
            Phase::LoadSaveIdAgain(id) => PhaseView::LoadSaveIdAgain(id@),
            Phase::LoadDownloadHub(id) => PhaseView::LoadDownloadHub(id@),
            Phase::LoadAiHandler(id) => PhaseView::LoadAiHandler(id@),
            Phase::LoadLanguageModel(id) => PhaseView::LoadLanguageModel(id@),
            Phase::LoadVisionModel(id, m) => PhaseView::LoadVisionModel(id@, m@),
            Phase::LoadLanguageCollection(id, info) => PhaseView::LoadLanguageCollection(id@, info@),
            Phase::LoadVisionCollection(id) => PhaseView::LoadVisionCollection(id@),
        }
    }
}

/// The outside work that the context asks for next. Each command but `Reply` is
/// answered by one call: `SendCancelAll` by `on_tasks_cancelled`, `InitTaskPool` by
/// `on_task_pool_ready`, `SaveStore` by `on_store_saved`, `OpenLibrary` by
/// `on_library_opened`, `KillQdrant` by `on_qdrant_killed`, `ShutdownAiHandler` by
/// `on_ai_handler_shut_down`, `InitDownloadHub` by `on_download_hub_ready`,
/// `InitAiHandler` by `on_ai_handler_ready`, `ResolveLanguageModel` by
/// `on_language_model_resolved`, `ResolveVisionModel` by `on_vision_model_resolved`,
/// `EnsureCollection` by `on_collection_checked`. `Reply` ends the request with its answer.
#[derive(Debug)]
pub enum Command {
    SendCancelAll,
    InitTaskPool,
    SaveStore,
    OpenLibrary(String),
    KillQdrant(u32),
    ShutdownAiHandler,
    InitDownloadHub,
    InitAiHandler,
    ResolveLanguageModel,
    ResolveVisionModel,
    EnsureCollection(String, usize),
    Reply(Result<(), ApiError>),
}

pub enum CommandView {
    SendCancelAll,
    InitTaskPool,
    SaveStore,
    OpenLibrary(Seq<char>),
    KillQdrant(u32),
    ShutdownAiHandler,
    InitDownloadHub,
    InitAiHandler,
    ResolveLanguageModel,
    ResolveVisionModel,
    EnsureCollection(Seq<char>, usize),
    Reply(Result<(), ApiErrorView>),
}

impl View for Command {
    type V = CommandView;

    open spec fn view(&self) -> CommandView {
        match self {
            Command::SendCancelAll => CommandView::SendCancelAll,
            Command::InitTaskPool => CommandView::InitTaskPool,
            Command::SaveStore => CommandView::SaveStore,
            Command::OpenLibrary(id) => CommandView::OpenLibrary(id@),
            Command::KillQdrant(pid) => CommandView::KillQdrant(*pid),
            Command::ShutdownAiHandler => CommandView::ShutdownAiHandler,
            Command::InitDownloadHub => CommandView::InitDownloadHub,
            Command::InitAiHandler => CommandView::InitAiHandler,
            Command::ResolveLanguageModel => CommandView::ResolveLanguageModel,
            Command::ResolveVisionModel => CommandView::ResolveVisionModel,
            Command::EnsureCollection(name, dim) => CommandView::EnsureCollection(name@, *dim),
            Command::Reply(r) => CommandView::Reply(
                match r {
                    Ok(()) => Ok(()),
                    Err(e) => Err(e@),
                },
            ),
        }
    }
}

pub open spec fn reply_ok() -> CommandView {
    CommandView::Reply(Ok(()))
}

pub open spec fn reply_err(e: ApiErrorView) -> CommandView {
    CommandView::Reply(Err(e))
}

pub open spec fn app_busy_error() -> ApiErrorView {
    ApiErrorView { code: ErrorCode::Conflict, message: "App is busy"@ }
}

pub open spec fn failed(prefix: Seq<char>, detail: Seq<char>) -> ApiErrorView {
    ApiErrorView { code: ErrorCode::InternalServerError, message: prefix + detail }
}

/// The state of a context as the contracts see it.
pub struct CtxModel<L, T, A, D> {
    pub local_data_root: std::path::PathBuf,
    pub resources_dir: std::path::PathBuf,
    pub busy: bool,
    pub library: Option<L>,
    pub tx: Option<T>,
    pub ai_handler: Option<A>,
    pub download_hub: Option<D>,
    pub store: Map<Seq<char>, Seq<char>>,
    pub store_writes: Seq<StoreCall>,
    pub phase: PhaseView,
}

impl<L, T, A, D> CtxModel<L, T, A, D> {
    /// The process id that the store records for the vector database, if its text is one.
    pub open spec fn stored_pid(self) -> Option<u32> {
        decimal_u32(
            if self.store.contains_key(qdrant_pid_key()) {
                self.store[qdrant_pid_key()]
            } else {
                Seq::empty()
            },
        )
    }

    /// The end of an operation, successful or not: idle and no longer busy.
    pub open spec fn finish(self) -> Self {
        CtxModel { busy: false, phase: PhaseView::Idle, ..self }
    }

    /// One write made to the store.
    pub open spec fn write(self, c: StoreCall) -> Self {
        CtxModel { store: apply_call(self.store, c), store_writes: self.store_writes.push(c), ..self }
    }

    pub open spec fn in_phase(self, phase: PhaseView) -> Self {
        CtxModel { phase, ..self }
    }

    /// What holds of a context between any two calls: it is busy exactly while a load or
    /// an unload is under way, and each step of one finds what the earlier steps did.
    pub open spec fn inv(self) -> bool {
        &&& self.busy <==> !(self.phase is Idle)
        &&& match self.phase {
            PhaseView::UnloadKill => self.tx is None,
            PhaseView::UnloadShutdown => self.tx is None && !self.store.contains_key(qdrant_pid_key()),
            PhaseView::UnloadSave => {
                &&& self.tx is None
                &&& self.library is None
                &&& !self.store.contains_key(qdrant_pid_key())
                &&& !self.store.contains_key(library_id_key())
            },
            PhaseView::LoadSaveId(id) | PhaseView::LoadOpen(id) => {
                &&& self.tx is Some
                &&& self.store.contains_key(library_id_key())
                &&& self.store[library_id_key()] == id
            },
            PhaseView::LoadSavePid(id) | PhaseView::LoadSaveIdAgain(id) | PhaseView::LoadDownloadHub(id) => {
                &&& self.tx is Some
                &&& self.library is Some
                &&& self.store.contains_key(library_id_key())
                &&& self.store[library_id_key()] == id
                &&& self.stored_pid() is Some
            },
            PhaseView::LoadAiHandler(id) => {
                &&& self.tx is Some
                &&& self.library is Some
                &&& self.download_hub is Some
                &&& self.store.contains_key(library_id_key())
                &&& self.store[library_id_key()] == id
                &&& self.stored_pid() is Some
            },
            PhaseView::LoadLanguageModel(id) | PhaseView::LoadVisionModel(id, _) | PhaseView::LoadLanguageCollection(id, _)
            | PhaseView::LoadVisionCollection(id) => {
                &&& self.tx is Some
                &&& self.library is Some
                &&& self.download_hub is Some
                &&& self.ai_handler is Some
                &&& self.store.contains_key(library_id_key())
                &&& self.store[library_id_key()] == id
                &&& self.stored_pid() is Some
            },
            _ => true,
        }
    }

    // ---- unloading ----

    /// The library is released: its id leaves the store, which is then saved.
    pub open spec fn unload_release(self) -> (Self, CommandView) {
        (
            CtxModel { library: None, phase: PhaseView::UnloadSave, ..self }.write(
                StoreCall::Delete(library_id_key()),
            ),
            CommandView::SaveStore,
        )
    }

    /// The AI handler, where there is one, is shut down; it stays set.
    pub open spec fn unload_shutdown(self) -> (Self, CommandView) {
        if self.ai_handler is Some {
            (self.in_phase(PhaseView::UnloadShutdown), CommandView::ShutdownAiHandler)
        } else {
            self.unload_release()
        }
    }

    /// The vector database whose process id the store records is stopped; where the
    /// record is no process id, it is dropped and the unload goes on.
    pub open spec fn unload_kill(self) -> (Self, CommandView) {
        match self.stored_pid() {
            Some(pid) => (self.in_phase(PhaseView::UnloadKill), CommandView::KillQdrant(pid)),
            None => self.write(StoreCall::Delete(qdrant_pid_key())).unload_shutdown(),
        }
    }

    /// A request to unload the current library.
    pub open spec fn unload(self) -> (Self, CommandView) {
        if self.busy {
            (self, reply_err(app_busy_error()))
        } else {
            let m = CtxModel { busy: true, ..self };
            if m.tx is Some {
                (m.in_phase(PhaseView::UnloadCancel), CommandView::SendCancelAll)
            } else {
                m.unload_kill()
            }
        }
    }

    // ---- loading ----

    /// A request to load the library `id`.
    pub open spec fn load(self, id: Seq<char>) -> (Self, CommandView) {
        if self.busy {
            (self, reply_err(app_busy_error()))
        } else {
            let m = CtxModel { busy: true, ..self };
            if m.tx is Some {
                (m.in_phase(PhaseView::LoadCancel(id)), CommandView::SendCancelAll)
            } else {
                (m.in_phase(PhaseView::LoadTaskPool(id)), CommandView::InitTaskPool)
            }
        }
    }

    // ---- outcomes of commands ----

    pub open spec fn tasks_cancelled(self, r: Result<(), String>) -> (Self, CommandView) {
        match self.phase {
            PhaseView::UnloadCancel => match r {
                Err(msg) => (self.finish(), reply_err(failed("Failed to cancel tasks: "@, msg@))),
                Ok(()) => CtxModel { tx: None, ..self }.unload_kill(),
            },
            PhaseView::LoadCancel(id) => (self.in_phase(PhaseView::LoadTaskPool(id)), CommandView::InitTaskPool),
            _ => (self, CommandView::SendCancelAll),
        }
    }

    pub open spec fn qdrant_killed(self, r: Result<(), String>) -> (Self, CommandView) {
        match r {
            Err(msg) => (self.finish(), reply_err(failed("Failed to kill qdrant: "@, msg@))),
            Ok(()) => self.write(StoreCall::Delete(qdrant_pid_key())).unload_shutdown(),
        }
    }

    pub open spec fn ai_handler_shut_down(self, r: Result<(), String>) -> (Self, CommandView) {
        match r {
            Err(msg) => (self.finish(), reply_err(failed("Failed to shutdown AI handler: "@, msg@))),
            Ok(()) => self.unload_release(),
        }
    }

    pub open spec fn store_saved(self) -> (Self, CommandView) {
        match self.phase {
            PhaseView::UnloadSave => (self.finish(), reply_ok()),
            PhaseView::LoadSaveId(id) => (self.in_phase(PhaseView::LoadOpen(id)), CommandView::OpenLibrary(id)),
            PhaseView::LoadSavePid(id) => (
                self.in_phase(PhaseView::LoadSaveIdAgain(id)).write(StoreCall::Insert(library_id_key(), id)),
                CommandView::SaveStore,
            ),
            PhaseView::LoadSaveIdAgain(id) => (self.in_phase(PhaseView::LoadDownloadHub(id)), CommandView::InitDownloadHub),
            _ => (self, CommandView::SaveStore),
        }
    }

    pub open spec fn task_pool_ready(self, tx: T) -> (Self, CommandView) {
        match self.phase {
            PhaseView::LoadTaskPool(id) => (
                CtxModel { tx: Some(tx), phase: PhaseView::LoadSaveId(id), ..self }.write(
                    StoreCall::Insert(library_id_key(), id),
                ),
                CommandView::SaveStore,
            ),
            _ => (self, CommandView::InitTaskPool),
        }
    }

    pub open spec fn library_opened(self, library: L, pid: u32) -> (Self, CommandView) {
        match self.phase {
            PhaseView::LoadOpen(id) => (
                CtxModel { library: Some(library), phase: PhaseView::LoadSavePid(id), ..self }.write(
                    StoreCall::Insert(qdrant_pid_key(), decimal_text(pid as nat)),
                ),
                CommandView::SaveStore,
            ),
            _ => (self, CommandView::SaveStore),
        }
    }

    pub open spec fn download_hub_ready(self, hub: D) -> (Self, CommandView) {
        match self.phase {
            PhaseView::LoadDownloadHub(id) => (
                CtxModel { download_hub: Some(hub), phase: PhaseView::LoadAiHandler(id), ..self },
                CommandView::InitAiHandler,
            ),
            _ => (self, CommandView::InitAiHandler),
        }
    }

    pub open spec fn ai_handler_ready(self, r: Result<A, String>) -> (Self, CommandView) {
        match self.phase {
            PhaseView::LoadAiHandler(id) => match r {
                Err(msg) => (self.finish(), reply_err(failed("Failed to init AI handler: "@, msg@))),
                Ok(a) => {
                    let m = CtxModel { ai_handler: Some(a), ..self };
                    if m.library is Some {
                        (m.in_phase(PhaseView::LoadLanguageModel(id)), CommandView::ResolveLanguageModel)
                    } else {
                        (m.finish(), reply_err(no_library_error()))
                    }
                },
            },
            _ => (self, CommandView::ResolveLanguageModel),
        }
    }

    pub open spec fn language_model_resolved(self, r: Result<ModelInfo, ApiError>) -> (Self, CommandView) {
        match self.phase {
            PhaseView::LoadLanguageModel(id) => match lookup_view(r) {
                Err(e) => (self.finish(), reply_err(e)),
                Ok(l) => (self.in_phase(PhaseView::LoadVisionModel(id, l)), CommandView::ResolveVisionModel),
            },
            _ => (self, CommandView::ResolveVisionModel),
        }
    }

    pub open spec fn vision_model_resolved(self, r: Result<ModelInfo, ApiError>) -> (Self, CommandView) {
        match self.phase {
            PhaseView::LoadVisionModel(id, l) => match qdrant_info_outcome(
                self.library is Some,
                Ok(l),
                Some(lookup_view(r)),
            ) {
                Err(e) => (self.finish(), reply_err(e)),
                Ok(info) => (
                    self.in_phase(PhaseView::LoadLanguageCollection(id, info)),
                    CommandView::EnsureCollection(info.language_collection.name, info.language_collection.dim),
                ),
            },
            _ => (self, CommandView::ResolveVisionModel),
        }
    }

    pub open spec fn collection_checked(self) -> (Self, CommandView) {
        match self.phase {
            PhaseView::LoadLanguageCollection(id, info) => (
                self.in_phase(PhaseView::LoadVisionCollection(id)),
                CommandView::EnsureCollection(info.vision_collection.name, info.vision_collection.dim),
            ),
            PhaseView::LoadVisionCollection(id) => (self.finish(), reply_ok()),
            _ => (self, CommandView::SaveStore),
        }
    }
}


/// Two keys of the store that the context keeps apart.
pub proof fn lemma_keys_differ()
    ensures
        library_id_key() != qdrant_pid_key(),
{
    reveal_strlit("current-library-id");
    reveal_strlit("current-qdrant-pid");
    assert(library_id_key()[8] != qdrant_pid_key()[8]);
}

/// The context of the server: the store it keeps its state in, the library that is
/// loaded, the handles that go with it (a sender of tasks, an AI handler, a download
/// hub), and the progress of a load or an unload. `L`, `T`, `A` and `D` are the types
/// of the library, the task sender, the AI handler and the download hub.
pub struct Ctx<S, L, T, A, D> {
    local_data_root: std::path::PathBuf,
    resources_dir: std::path::PathBuf,
    store: S,
    current_library: Option<L>,
    tx: Option<T>,
    ai_handler: Option<A>,
    is_busy: bool,
    download_hub: Option<D>,
    phase: Phase,
}

impl<S: CtxStore, L, T, A, D> View for Ctx<S, L, T, A, D> {
    type V = CtxModel<L, T, A, D>;

    closed spec fn view(&self) -> CtxModel<L, T, A, D> {
        CtxModel {
            local_data_root: self.local_data_root,
            resources_dir: self.resources_dir,
            busy: self.is_busy,
            library: self.current_library,
            tx: self.tx,
            ai_handler: self.ai_handler,
            download_hub: self.download_hub,
            store: self.store.entries(),
            store_writes: self.store.writes(),
            phase: self.phase@,
        }
    }
}

impl<S: CtxStore, L, T, A, D> Ctx<S, L, T, A, D> {
    /// A context with nothing loaded, keeping its state in `store`.
    pub fn new(local_data_root: std::path::PathBuf, resources_dir: std::path::PathBuf, store: S) -> (c: Self)
        ensures
            c@ == (CtxModel::<L, T, A, D> {
                local_data_root,
                resources_dir,
                busy: false,
                library: None,
                tx: None,
                ai_handler: None,
                download_hub: None,
                store: store.entries(),
                store_writes: store.writes(),
                phase: PhaseView::Idle,
            }),
            c@.inv(),
    {
        Ctx {
            local_data_root,
            resources_dir,
            store,
            current_library: None,
            tx: None,
            ai_handler: None,
            is_busy: false,
            download_hub: None,
            phase: Phase::Idle,
        }
    }

    pub fn get_local_data_root(&self) -> (p: &std::path::PathBuf)
        ensures
            *p == self@.local_data_root,
    {
        &self.local_data_root
    }

    pub fn get_resources_dir(&self) -> (p: &std::path::PathBuf)
        ensures
            *p == self@.resources_dir,
    {
        &self.resources_dir
    }

    /// The store that the context keeps its state in.
    pub fn store(&self) -> (s: &S)
        ensures
            s.entries() == self@.store,
    {
        &self.store
    }

    /// Where the current load or unload stands.
    pub fn phase(&self) -> (p: &Phase)
        ensures
            p@ == self@.phase,
    {
        &self.phase
    }

    /// The current library, or a `BadRequest` error where none is loaded.
    pub fn library(&self) -> (r: Result<&L, ApiError>)
        ensures
            match self@.library {
                Some(l) => r matches Ok(x) && *x == l,
                None => r matches Err(e) && e@ == (ApiErrorView {
                    code: ErrorCode::BadRequest,
                    message: "No current library is set"@,
                }),
            },
    {
        match &self.current_library {
            Some(l) => Ok(l),
            None => Err(api_error_text(ErrorCode::BadRequest, "No current library is set")),
        }
    }

    /// The sender of tasks, or a `BadRequest` error where there is none.
    pub fn task_tx(&self) -> (r: Result<&T, ApiError>)
        ensures
            match self@.tx {
                Some(t) => r matches Ok(x) && *x == t,
                None => r matches Err(e) && e@ == (ApiErrorView {
                    code: ErrorCode::BadRequest,
                    message: "No task tx is set"@,
                }),
            },
    {
        match &self.tx {
            Some(t) => Ok(t),
            None => Err(api_error_text(ErrorCode::BadRequest, "No task tx is set")),
        }
    }

    /// The AI handler, or a `BadRequest` error where there is none.
    pub fn ai_handler(&self) -> (r: Result<&A, ApiError>)
        ensures
            match self@.ai_handler {
                Some(a) => r matches Ok(x) && *x == a,
                None => r matches Err(e) && e@ == (ApiErrorView {
                    code: ErrorCode::BadRequest,
                    message: "No ai handler is set"@,
                }),
            },
    {
        match &self.ai_handler {
            Some(a) => Ok(a),
            None => Err(api_error_text(ErrorCode::BadRequest, "No ai handler is set")),
        }
    }

    /// The download hub that hands out a download reporter, or a `BadRequest` error
    /// where there is none.
    pub fn download_reporter_hub(&self) -> (r: Result<&D, ApiError>)
        ensures
            match self@.download_hub {
                Some(d) => r matches Ok(x) && *x == d,
                None => r matches Err(e) && e@ == (ApiErrorView {
                    code: ErrorCode::BadRequest,
                    message: "No download reporter is set"@,
                }),
            },
    {
        match &self.download_hub {
            Some(d) => Ok(d),
            None => Err(api_error_text(ErrorCode::BadRequest, "No download reporter is set")),
        }
    }

    /// The download hub that lists the state of downloads, or a `BadRequest` error
    /// where there is none.
    pub fn download_status_hub(&self) -> (r: Result<&D, ApiError>)
        ensures
            match self@.download_hub {
                Some(d) => r matches Ok(x) && *x == d,
                None => r matches Err(e) && e@ == (ApiErrorView {
                    code: ErrorCode::BadRequest,
                    message: "No download status is set"@,
                }),
            },
    {
        match &self.download_hub {
            Some(d) => Ok(d),
            None => Err(api_error_text(ErrorCode::BadRequest, "No download status is set")),
        }
    }

    /// The id of the library that the store records as current.
    pub fn library_id_in_store(&self) -> (r: Option<String>)
        ensures
            match r {
                Some(id) => self@.store.contains_key(library_id_key()) && id@ == self@.store[library_id_key()],
                None => !self@.store.contains_key(library_id_key()),
            },
    {
        self.store.get("current-library-id")
    }

    /// The collections of the current library, from the lookups of its two models; the
    /// image model is looked up only where a library is set and the text model was found.
    pub fn qdrant_info(
        &self,
        language: Result<ModelInfo, ApiError>,
        vision: Option<Result<ModelInfo, ApiError>>,
    ) -> (r: Result<QdrantServerInfo, ApiError>)
        requires
            needs_vision_lookup(self@.library is Some, lookup_view(language)) ==> vision is Some,
        ensures
            match (r, qdrant_info_outcome(self@.library is Some, lookup_view(language), match vision {
                Some(v) => Some(lookup_view(v)),
                None => None,
            })) {
                (Ok(info), Ok(expected)) => info@ == expected,
                (Err(e), Err(expected)) => e@ == expected,
                _ => false,
            },
    {
        qdrant_server_info(self.current_library.is_some(), language, vision)
    }

    fn fail(&mut self, prefix: &str, detail: &str) -> (c: Command)
        ensures
            final(self)@ == old(self)@.finish(),
            c@ == reply_err(failed(prefix@, detail@)),
    {
        self.phase = Phase::Idle;
        self.is_busy = false;
        Command::Reply(Err(api_error(ErrorCode::InternalServerError, prefix, detail)))
    }

    fn unload_release(&mut self) -> (c: Command)
        ensures
            (final(self)@, c@) == old(self)@.unload_release(),
    {
        self.current_library = None;
        let _ = self.store.delete("current-library-id");
        self.phase = Phase::UnloadSave;
        Command::SaveStore
    }

    fn unload_shutdown(&mut self) -> (c: Command)
        ensures
            (final(self)@, c@) == old(self)@.unload_shutdown(),
    {
        if self.ai_handler.is_some() {
            self.phase = Phase::UnloadShutdown;
            Command::ShutdownAiHandler
        } else {
            self.unload_release()
        }
    }

    fn unload_kill(&mut self) -> (c: Command)
        ensures
            (final(self)@, c@) == old(self)@.unload_kill(),
    {
        let pid_text = match self.store.get("current-qdrant-pid") {
            Some(t) => t,
            None => String::new(),
        };
        match parse_u32(pid_text.as_str()) {
            Some(pid) => {
                self.phase = Phase::UnloadKill;
                Command::KillQdrant(pid)
            },
            None => {
                let _ = self.store.delete("current-qdrant-pid");
                self.unload_shutdown()
            },
        }
    }

    /// A request to unload the current library. Where a load or an unload is under way,
    /// the answer is a `Conflict` error and nothing changes.
    pub fn unload_library(&mut self) -> (c: Command)
        ensures
            (final(self)@, c@) == old(self)@.unload(),
            old(self)@.inv() ==> final(self)@.inv(),
            old(self)@.busy ==> final(self)@ == old(self)@ && c@ == reply_err(app_busy_error()),
    {
        if self.is_busy {
            return Command::Reply(Err(api_error_text(ErrorCode::Conflict, "App is busy")));
        }
        self.is_busy = true;
        if self.tx.is_some() {
            self.phase = Phase::UnloadCancel;
            Command::SendCancelAll
        } else {
            self.unload_kill()
        }
    }

    /// A request to load the library `library_id`. Where a load or an unload is under
    /// way, the answer is a `Conflict` error and nothing changes.
    pub fn load_library(&mut self, library_id: &str) -> (c: Command)
        ensures
            (final(self)@, c@) == old(self)@.load(library_id@),
            old(self)@.inv() ==> final(self)@.inv(),
            old(self)@.busy ==> final(self)@ == old(self)@ && c@ == reply_err(app_busy_error()),
    {
        if self.is_busy {
            return Command::Reply(Err(api_error_text(ErrorCode::Conflict, "App is busy")));
        }
        self.is_busy = true;
        let id = String::from_str(library_id);
        if self.tx.is_some() {
            self.phase = Phase::LoadCancel(id);
            Command::SendCancelAll
        } else {
            self.phase = Phase::LoadTaskPool(id);
            Command::InitTaskPool
        }
    }

    /// The outcome of `SendCancelAll`. In an unload a failure ends the request with an
    /// error (the sender stays) and success drops the sender; in a load the outcome is
    /// only logged and the load goes on.
    pub fn on_tasks_cancelled(&mut self, r: Result<(), String>) -> (c: Command)
        requires
            old(self)@.phase is UnloadCancel || old(self)@.phase is LoadCancel,
        ensures
            (final(self)@, c@) == old(self)@.tasks_cancelled(r),
            old(self)@.inv() ==> final(self)@.inv(),
            c@ is Reply ==> !final(self)@.busy && final(self)@.phase is Idle,
    {
        match &self.phase {
            Phase::LoadCancel(id) => {
                let id = id.clone();
                self.phase = Phase::LoadTaskPool(id);
                Command::InitTaskPool
            },
            _ => match r {
                Err(msg) => self.fail("Failed to cancel tasks: ", msg.as_str()),
                Ok(()) => {
                    self.tx = None;
                    self.unload_kill()
                },
            },
        }
    }

    /// The outcome of `KillQdrant`: a failure ends the unload with an error; on success
    /// the record of the process id leaves the store and the unload goes on.
    pub fn on_qdrant_killed(&mut self, r: Result<(), String>) -> (c: Command)
        requires
            old(self)@.phase is UnloadKill,
        ensures
            (final(self)@, c@) == old(self)@.qdrant_killed(r),
            old(self)@.inv() ==> final(self)@.inv(),
            c@ is Reply ==> !final(self)@.busy && final(self)@.phase is Idle,
    {
        match r {
            Err(msg) => self.fail("Failed to kill qdrant: ", msg.as_str()),
            Ok(()) => {
                let _ = self.store.delete("current-qdrant-pid");
                self.unload_shutdown()
            },
        }
    }

    /// The outcome of `ShutdownAiHandler`: a failure ends the unload with an error;
    /// on success the library is released.
    pub fn on_ai_handler_shut_down(&mut self, r: Result<(), String>) -> (c: Command)
        requires
            old(self)@.phase is UnloadShutdown,
        ensures
            (final(self)@, c@) == old(self)@.ai_handler_shut_down(r),
            old(self)@.inv() ==> final(self)@.inv(),
            c@ is Reply ==> !final(self)@.busy && final(self)@.phase is Idle,
    {
        match r {
            Err(msg) => self.fail("Failed to shutdown AI handler: ", msg.as_str()),
            Ok(()) => self.unload_release(),
        }
    }

    /// The store was saved, or failed to be saved, which is only logged.
    pub fn on_store_saved(&mut self) -> (c: Command)
        requires
            old(self)@.phase is UnloadSave || old(self)@.phase is LoadSaveId
                || old(self)@.phase is LoadSavePid || old(self)@.phase is LoadSaveIdAgain,
        ensures
            (final(self)@, c@) == old(self)@.store_saved(),
            old(self)@.inv() ==> final(self)@.inv(),
            c@ is Reply ==> !final(self)@.busy && final(self)@.phase is Idle,
    {
        match &self.phase {
            Phase::LoadSaveId(id) => {
                let id = id.clone();
                let open = id.clone();
                self.phase = Phase::LoadOpen(id);
                Command::OpenLibrary(open)
            },
            Phase::LoadSavePid(id) => {
                let id = id.clone();
                let _ = self.store.insert("current-library-id", id.as_str());
                self.phase = Phase::LoadSaveIdAgain(id);
                Command::SaveStore
            },
            Phase::LoadSaveIdAgain(id) => {
                let id = id.clone();
                self.phase = Phase::LoadDownloadHub(id);
                Command::InitDownloadHub
            },
            _ => {
                self.phase = Phase::Idle;
                self.is_busy = false;
                Command::Reply(Ok(()))
            },
        }
    }

    /// A new sender of tasks: it replaces the old one, and the library's id goes into the
    /// store, which is then saved.
    pub fn on_task_pool_ready(&mut self, tx: T) -> (c: Command)
        requires
            old(self)@.phase is LoadTaskPool,
        ensures
            (final(self)@, c@) == old(self)@.task_pool_ready(tx),
            old(self)@.inv() ==> final(self)@.inv(),
    {
        match &self.phase {
            Phase::LoadTaskPool(id) => {
                let id = id.clone();
                self.tx = Some(tx);
                let _ = self.store.insert("current-library-id", id.as_str());
                self.phase = Phase::LoadSaveId(id);
                Command::SaveStore
            },
            _ => Command::InitTaskPool,
        }
    }

    /// The opened library and the process id of its vector database: the library becomes
    /// current, the process id goes into the store, which is then saved.
    pub fn on_library_opened(&mut self, library: L, qdrant_pid: u32) -> (c: Command)
        requires
            old(self)@.phase is LoadOpen,
        ensures
            (final(self)@, c@) == old(self)@.library_opened(library, qdrant_pid),
            old(self)@.inv() ==> final(self)@.inv(),
            final(self)@.stored_pid() == Some(qdrant_pid),
    {
        proof {
            lemma_decimal_round_trip(qdrant_pid);
            lemma_keys_differ();
        }
        match &self.phase {
            Phase::LoadOpen(id) => {
                let id = id.clone();
                self.current_library = Some(library);
                let text = u32_to_decimal(qdrant_pid);
                let _ = self.store.insert("current-qdrant-pid", text.as_str());
                self.phase = Phase::LoadSavePid(id);
                Command::SaveStore
            },
            _ => Command::SaveStore,
        }
    }

    /// A new download hub: it replaces the old one, and the AI handler is made next.
    pub fn on_download_hub_ready(&mut self, hub: D) -> (c: Command)
        requires
            old(self)@.phase is LoadDownloadHub,
        ensures
            (final(self)@, c@) == old(self)@.download_hub_ready(hub),
            old(self)@.inv() ==> final(self)@.inv(),
    {
        match &self.phase {
            Phase::LoadDownloadHub(id) => {
                let id = id.clone();
                self.download_hub = Some(hub);
                self.phase = Phase::LoadAiHandler(id);
                Command::InitAiHandler
            },
            _ => Command::InitAiHandler,
        }
    }

    /// The outcome of making the AI handler: a failure ends the load with an error; a new
    /// handler replaces the old one and the text model of the library is looked up next.
    pub fn on_ai_handler_ready(&mut self, r: Result<A, String>) -> (c: Command)
        requires
            old(self)@.phase is LoadAiHandler,
        ensures
            (final(self)@, c@) == old(self)@.ai_handler_ready(r),
            old(self)@.inv() ==> final(self)@.inv(),
            c@ is Reply ==> !final(self)@.busy && final(self)@.phase is Idle,
    {
        match &self.phase {
            Phase::LoadAiHandler(id) => {
                let id = id.clone();
                match r {
                    Err(msg) => self.fail("Failed to init AI handler: ", msg.as_str()),
                    Ok(a) => {
                        self.ai_handler = Some(a);
                        if self.current_library.is_some() {
                            self.phase = Phase::LoadLanguageModel(id);
                            Command::ResolveLanguageModel
                        } else {
                            self.phase = Phase::Idle;
                            self.is_busy = false;
                            Command::Reply(Err(api_error_text(ErrorCode::BadRequest, "No current library is set")))
                        }
                    },
                }
            },
            _ => Command::ResolveLanguageModel,
        }
    }

    /// The lookup of the library's text model: a failure ends the load with its error;
    /// otherwise the image model is looked up next.
    pub fn on_language_model_resolved(&mut self, r: Result<ModelInfo, ApiError>) -> (c: Command)
        requires
            old(self)@.phase is LoadLanguageModel,
        ensures
            (final(self)@, c@) == old(self)@.language_model_resolved(r),
            old(self)@.inv() ==> final(self)@.inv(),
            c@ is Reply ==> !final(self)@.busy && final(self)@.phase is Idle,
    {
        match &self.phase {
            Phase::LoadLanguageModel(id) => {
                let id = id.clone();
                match r {
                    Err(e) => {
                        self.phase = Phase::Idle;
                        self.is_busy = false;
                        Command::Reply(Err(e))
                    },
                    Ok(l) => {
                        self.phase = Phase::LoadVisionModel(id, l);
                        Command::ResolveVisionModel
                    },
                }
            },
            _ => Command::ResolveVisionModel,
        }
    }

    /// The lookup of the library's image model: where `qdrant_info` fails the load ends
    /// with its error; otherwise the text collection is checked next.
    pub fn on_vision_model_resolved(&mut self, r: Result<ModelInfo, ApiError>) -> (c: Command)
        requires
            old(self)@.phase is LoadVisionModel,
        ensures
            (final(self)@, c@) == old(self)@.vision_model_resolved(r),
            old(self)@.inv() ==> final(self)@.inv(),
            c@ is Reply ==> !final(self)@.busy && final(self)@.phase is Idle,
    {
        let mut phase = Phase::Idle;
        std::mem::swap(&mut phase, &mut self.phase);
        match phase {
            Phase::LoadVisionModel(id, language) => {
                match qdrant_server_info(self.current_library.is_some(), Ok(language), Some(r)) {
                    Err(e) => {
                        self.is_busy = false;
                        Command::Reply(Err(e))
                    },
                    Ok(info) => {
                        let name = info.language_collection.name.clone();
                        let dim = info.language_collection.dim;
                        self.phase = Phase::LoadLanguageCollection(id, info);
                        Command::EnsureCollection(name, dim)
                    },
                }
            },
            other => {
                self.phase = other;
                Command::ResolveVisionModel
            },
        }
    }

    /// A collection was checked (a failure is only logged): after the text collection the
    /// image collection is checked, after that the load ends.
    pub fn on_collection_checked(&mut self) -> (c: Command)
        requires
            old(self)@.phase is LoadLanguageCollection || old(self)@.phase is LoadVisionCollection,
        ensures
            (final(self)@, c@) == old(self)@.collection_checked(),
            old(self)@.inv() ==> final(self)@.inv(),
            c@ is Reply ==> !final(self)@.busy && final(self)@.phase is Idle,
    {
        let next = match &self.phase {
            Phase::LoadLanguageCollection(id, info) => Some((id.clone(), info.vision_collection.name.clone(), info.vision_collection.dim)),
            _ => None,
        };
        match next {
            Some((id, name, dim)) => {
                self.phase = Phase::LoadVisionCollection(id);
                Command::EnsureCollection(name, dim)
            },
            None => {
                self.phase = Phase::Idle;
                self.is_busy = false;
                Command::Reply(Ok(()))
            },
        }
    }
}

} // verus!
