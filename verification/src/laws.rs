use vstd::prelude::*;

use crate::ctx::{
    lemma_keys_differ,
    app_busy_error, library_id_key, qdrant_pid_key, reply_err, reply_ok, CommandView, CtxModel,
    PhaseView,
};
use crate::error::ApiError;
use crate::decimal::{decimal_text, lemma_decimal_round_trip};
use crate::error::ApiErrorView;
use crate::qdrant::{
    no_library_error, qdrant_info_outcome, ModelInfo, ModelInfoView, QdrantServerInfoView,
};
use crate::store::{one_write, replay, CtxStore, Store, StoreCall};

verus! {

/// A store reads back what was last written under a key, and a write under one key
/// leaves every other key as it was.
pub proof fn law_store_get_after_insert<S: CtxStore>(
    before: S,
    after: S,
    key: Seq<char>,
    value: Seq<char>,
    other: Seq<char>,
)
    requires
        after.entries() == before.entries().insert(key, value),
    ensures
        after.entries().contains_key(key),
        after.entries()[key] == value,
        other != key ==> after.entries().contains_key(other) == before.entries().contains_key(other),
        other != key && before.entries().contains_key(other) ==> after.entries()[other]
            == before.entries()[other],
{
}

/// After a key is deleted a store holds nothing under it, and every other key is as it was.
pub proof fn law_store_get_after_delete<S: CtxStore>(before: S, after: S, key: Seq<char>, other: Seq<char>)
    requires
        after.entries() == before.entries().remove(key),
    ensures
        !after.entries().contains_key(key),
        other != key ==> after.entries().contains_key(other) == before.entries().contains_key(other),
        other != key && before.entries().contains_key(other) ==> after.entries()[other]
            == before.entries()[other],
{
}

/// What `Store::save` writes, `Store::load` reads back into any store as the same
/// entries: saving a store and loading the file gives back what was saved.
pub proof fn law_store_save_then_load(saved: Store, bytes: Seq<u8>, before: Store, after: Store, ok: bool)
    requires
        saved.save_post(bytes),
        Store::load_post(before, after, bytes, ok),
    ensures
        ok,
        after.entries_view() == saved.entries_view(),
        after.path_view() == before.path_view(),
{
}

/// The last write under `k` in a run of writes, if any.
pub open spec fn last_write_for(calls: Seq<StoreCall>, k: Seq<char>) -> Option<StoreCall>
    decreases calls.len(),
{
    if calls.len() == 0 {
        None
    } else {
        match calls.last() {
            StoreCall::Insert(key, v) => if key == k {
                Some(calls.last())
            } else {
                last_write_for(calls.drop_last(), k)
            },
            StoreCall::Delete(key) => if key == k {
                Some(calls.last())
            } else {
                last_write_for(calls.drop_last(), k)
            },
        }
    }
}

/// After a run of writes, a key holds the value of its last insert, nothing after its
/// last delete, and what it held before where the run never wrote it.
pub proof fn law_store_last_write_wins(m: Map<Seq<char>, Seq<char>>, calls: Seq<StoreCall>, k: Seq<char>)
    ensures
        match last_write_for(calls, k) {
            Some(StoreCall::Insert(_, v)) => replay(m, calls).contains_key(k) && replay(m, calls)[k] == v,
            Some(StoreCall::Delete(_)) => !replay(m, calls).contains_key(k),
            None => replay(m, calls).contains_key(k) == m.contains_key(k) && (m.contains_key(k)
                ==> replay(m, calls)[k] == m[k]),
        },
    decreases calls.len(),
{
    if calls.len() > 0 {
        law_store_last_write_wins(m, calls.drop_last(), k);
    }
}

/// Over any run of calls in which each call is an `insert` or a `delete` (a `get`
/// changes nothing), the store ends up holding its first entries with the run's writes
/// replayed on them, and its record of writes grows by exactly those writes. With
/// `law_store_last_write_wins`, a store made by `Store::new` and then written holds, under
/// each key, the value of the last insert unless a delete came after it.
pub proof fn law_store_run<S: CtxStore>(run: Seq<S>)
    requires
        run.len() > 0,
        forall|i: int| 0 <= i < run.len() - 1 ==> #[trigger] one_write(run[i], run[i + 1]),
    ensures
        run.last().writes().len() >= run[0].writes().len(),
        run.last().writes().subrange(0, run[0].writes().len() as int) == run[0].writes(),
        run.last().entries() == replay(run[0].entries(), run.last().writes().skip(run[0].writes().len() as int)),
    decreases run.len(),
{
    if run.len() > 1 {
        let p = run.drop_last();
        assert forall|i: int| 0 <= i < p.len() - 1 implies #[trigger] one_write(p[i], p[i + 1]) by {
            assert(one_write(run[i], run[i + 1]));
        }
        law_store_run(p);
        let a = p.last();
        let b = run.last();
        let i = run.len() - 2;
        assert(one_write(run[i], run[i + 1]));
        assert(a == run[i]);
        assert(b == run[i + 1]);
        let n0 = run[0].writes().len() as int;
        assert(p[0] == run[0]);
        assert(b.writes().subrange(0, n0) =~= a.writes().subrange(0, n0));
        assert(b.writes().skip(n0).drop_last() =~= a.writes().skip(n0));
        assert(b.writes().skip(n0).last() == b.writes().last());
    } else {
        assert(run.last().writes().skip(run[0].writes().len() as int) =~= Seq::<StoreCall>::empty());
        assert(run.last().writes().subrange(0, run[0].writes().len() as int) =~= run[0].writes());
    }
}

/// While a load or an unload is under way (which is exactly when the context is busy),
/// every request to load or unload is refused with `Conflict` ("App is busy") and
/// changes nothing.
pub proof fn law_busy_context_refuses<L, T, A, D>(m: CtxModel<L, T, A, D>, id: Seq<char>)
    requires
        m.inv(),
        m.busy,
    ensures
        !(m.phase is Idle),
        m.unload() == (m, reply_err(app_busy_error())),
        m.load(id) == (m, reply_err(app_busy_error())),
{
}

/// No step of a load or an unload changes where the context keeps its data and
/// resources.
pub proof fn law_steps_keep_paths<L, T, A, D>(
    m: CtxModel<L, T, A, D>,
    id: Seq<char>,
    r: Result<(), String>,
    t: T,
    library: L,
    pid: u32,
    hub: D,
    ai: Result<A, String>,
    model: Result<ModelInfo, ApiError>,
)
    ensures
        ({
            let nexts = seq![
                m.unload().0,
                m.load(id).0,
                m.tasks_cancelled(r).0,
                m.qdrant_killed(r).0,
                m.ai_handler_shut_down(r).0,
                m.store_saved().0,
                m.task_pool_ready(t).0,
                m.library_opened(library, pid).0,
                m.download_hub_ready(hub).0,
                m.ai_handler_ready(ai).0,
                m.language_model_resolved(model).0,
                m.vision_model_resolved(model).0,
                m.collection_checked().0,
            ];
            forall|i: int| 0 <= i < nexts.len() ==> #[trigger] nexts[i].local_data_root == m.local_data_root
                && nexts[i].resources_dir == m.resources_dir
        }),
{
}

/// An unload that reaches its end replies `Ok` and leaves the context idle with no
/// library, no task sender, and neither the library id nor the process id in the store.
pub proof fn law_unload_completion<L, T, A, D>(m: CtxModel<L, T, A, D>)
    requires
        m.inv(),
        m.phase is UnloadSave,
    ensures
        ({
            let (after, reply) = m.store_saved();
            &&& reply == reply_ok()
            &&& !after.busy
            &&& after.phase is Idle
            &&& after.library is None
            &&& after.tx is None
            &&& !after.store.contains_key(library_id_key())
            &&& !after.store.contains_key(qdrant_pid_key())
            &&& after.inv()
        }),
{
}

/// A load that reaches its end replies `Ok` and leaves the context idle with the
/// library, a task sender, a download hub and an AI handler set, the library's id in the
/// store and a process id recorded there.
pub proof fn law_load_completion<L, T, A, D>(m: CtxModel<L, T, A, D>, id: Seq<char>)
    requires
        m.inv(),
        m.phase == PhaseView::LoadVisionCollection(id),
    ensures
        ({
            let (after, reply) = m.collection_checked();
            &&& reply == reply_ok()
            &&& !after.busy
            &&& after.phase is Idle
            &&& after.library is Some
            &&& after.tx is Some
            &&& after.download_hub is Some
            &&& after.ai_handler is Some
            &&& after.store.contains_key(library_id_key())
            &&& after.store[library_id_key()] == id
            &&& after.stored_pid() is Some
            &&& after.inv()
        }),
{
}

/// A whole load followed by a whole unload, every outside step succeeding, from an idle
/// context with no task sender: the commands come in the order of the original steps, the
/// store receives exactly these writes (and no others): the library id, the process id of
/// the library's vector database, the library id again; then the process id's deletion and
/// the library id's deletion. The unload stops the very process that the load recorded.
pub proof fn law_load_then_unload<L, T, A, D>(
    m: CtxModel<L, T, A, D>,
    id: Seq<char>,
    t: T,
    library: L,
    pid: u32,
    hub: D,
    ai: A,
    language: ModelInfo,
    vision: ModelInfo,
)
    requires
        m.inv(),
        !m.busy,
        m.tx is None,
        language.dim is Some,
        vision.dim is Some,
    ensures
        ({
            let (m1, c1) = m.load(id);
            let (m2, c2) = m1.task_pool_ready(t);
            let (m3, c3) = m2.store_saved();
            let (m4, c4) = m3.library_opened(library, pid);
            let (m5, c5) = m4.store_saved();
            let (m6, c6) = m5.store_saved();
            let (m7, c7) = m6.download_hub_ready(hub);
            let (m8, c8) = m7.ai_handler_ready(Ok(ai));
            let (m9, c9) = m8.language_model_resolved(Ok(language));
            let (m10, c10) = m9.vision_model_resolved(Ok(vision));
            let (m11, c11) = m10.collection_checked();
            let (m12, c12) = m11.collection_checked();
            let (u1, d1) = m12.unload();
            let (u2, d2) = u1.tasks_cancelled(Ok(()));
            let (u3, d3) = u2.qdrant_killed(Ok(()));
            let (u4, d4) = u3.ai_handler_shut_down(Ok(()));
            let (u5, d5) = u4.store_saved();
            &&& c1 == CommandView::InitTaskPool
            &&& c2 == CommandView::SaveStore
            &&& c3 == CommandView::OpenLibrary(id)
            &&& c4 == CommandView::SaveStore
            &&& c5 == CommandView::SaveStore
            &&& c6 == CommandView::InitDownloadHub
            &&& c7 == CommandView::InitAiHandler
            &&& c8 == CommandView::ResolveLanguageModel
            &&& c9 == CommandView::ResolveVisionModel
            &&& c10 == CommandView::EnsureCollection(language.collection_name@, language.dim->0)
            &&& c11 == CommandView::EnsureCollection(vision.collection_name@, vision.dim->0)
            &&& c12 == reply_ok()
            &&& !m12.busy
            &&& m12.store_writes == m.store_writes.push(StoreCall::Insert(library_id_key(), id)).push(
                StoreCall::Insert(qdrant_pid_key(), decimal_text(pid as nat)),
            ).push(StoreCall::Insert(library_id_key(), id))
            &&& d1 == CommandView::SendCancelAll
            &&& d2 == CommandView::KillQdrant(pid)
            &&& d3 == CommandView::ShutdownAiHandler
            &&& d4 == CommandView::SaveStore
            &&& d5 == reply_ok()
            &&& u5.store_writes == m12.store_writes.push(StoreCall::Delete(qdrant_pid_key())).push(
                StoreCall::Delete(library_id_key()),
            )
            &&& !u5.busy
            &&& u5.library is None
            &&& u5.tx is None
            &&& !u5.store.contains_key(library_id_key())
            &&& !u5.store.contains_key(qdrant_pid_key())
        }),
{
    lemma_decimal_round_trip(pid);
    lemma_keys_differ();
    let (m1, c1) = m.load(id);
    let (m2, c2) = m1.task_pool_ready(t);
    let (m3, c3) = m2.store_saved();
    let (m4, c4) = m3.library_opened(library, pid);
    let (m5, c5) = m4.store_saved();
    let (m6, c6) = m5.store_saved();
    assert(m6.stored_pid() == Some(pid));
    let (m7, c7) = m6.download_hub_ready(hub);
    let (m8, c8) = m7.ai_handler_ready(Ok(ai));
    let (m9, c9) = m8.language_model_resolved(Ok(language));
    let (m10, c10) = m9.vision_model_resolved(Ok(vision));
    let (m11, c11) = m10.collection_checked();
    let (m12, c12) = m11.collection_checked();
    assert(m12.stored_pid() == Some(pid));
}

/// What a context can be told: a request, or the outcome of the command it gave.
pub enum CtxEvent<L, T, A, D> {
    Unload,
    Load(Seq<char>),
    TasksCancelled(Result<(), String>),
    QdrantKilled(Result<(), String>),
    AiHandlerShutDown(Result<(), String>),
    StoreSaved,
    TaskPoolReady(T),
    LibraryOpened(L, u32),
    DownloadHubReady(D),
    AiHandlerReady(Result<A, String>),
    LanguageModelResolved(Result<ModelInfo, ApiError>),
    VisionModelResolved(Result<ModelInfo, ApiError>),
    CollectionChecked,
}

/// The call of `Ctx` that an event stands for, as its contract gives it.
pub open spec fn step<L, T, A, D>(m: CtxModel<L, T, A, D>, e: CtxEvent<L, T, A, D>) -> (CtxModel<L, T, A, D>, CommandView) {
    match e {
        CtxEvent::Unload => m.unload(),
        CtxEvent::Load(id) => m.load(id),
        CtxEvent::TasksCancelled(r) => m.tasks_cancelled(r),
        CtxEvent::QdrantKilled(r) => m.qdrant_killed(r),
        CtxEvent::AiHandlerShutDown(r) => m.ai_handler_shut_down(r),
        CtxEvent::StoreSaved => m.store_saved(),
        CtxEvent::TaskPoolReady(t) => m.task_pool_ready(t),
        CtxEvent::LibraryOpened(l, pid) => m.library_opened(l, pid),
        CtxEvent::DownloadHubReady(d) => m.download_hub_ready(d),
        CtxEvent::AiHandlerReady(r) => m.ai_handler_ready(r),
        CtxEvent::LanguageModelResolved(r) => m.language_model_resolved(r),
        CtxEvent::VisionModelResolved(r) => m.vision_model_resolved(r),
        CtxEvent::CollectionChecked => m.collection_checked(),
    }
}

/// Whether the context takes the event where it stands: a request always, an outcome
/// only in the phase that waits for it (the `requires` of the matching `on_*` call).
pub open spec fn accepts<L, T, A, D>(m: CtxModel<L, T, A, D>, e: CtxEvent<L, T, A, D>) -> bool {
    match e {
        CtxEvent::Unload | CtxEvent::Load(_) => true,
        CtxEvent::TasksCancelled(_) => m.phase is UnloadCancel || m.phase is LoadCancel,
        CtxEvent::QdrantKilled(_) => m.phase is UnloadKill,
        CtxEvent::AiHandlerShutDown(_) => m.phase is UnloadShutdown,
        CtxEvent::StoreSaved => m.phase is UnloadSave || m.phase is LoadSaveId || m.phase is LoadSavePid
            || m.phase is LoadSaveIdAgain,
        CtxEvent::TaskPoolReady(_) => m.phase is LoadTaskPool,
        CtxEvent::LibraryOpened(_, _) => m.phase is LoadOpen,
        CtxEvent::DownloadHubReady(_) => m.phase is LoadDownloadHub,
        CtxEvent::AiHandlerReady(_) => m.phase is LoadAiHandler,
        CtxEvent::LanguageModelResolved(_) => m.phase is LoadLanguageModel,
        CtxEvent::VisionModelResolved(_) => m.phase is LoadVisionModel,
        CtxEvent::CollectionChecked => m.phase is LoadLanguageCollection || m.phase is LoadVisionCollection,
    }
}

/// The context after a run of events, first to last.
pub open spec fn run<L, T, A, D>(m: CtxModel<L, T, A, D>, es: Seq<CtxEvent<L, T, A, D>>) -> CtxModel<L, T, A, D>
    decreases es.len(),
{
    if es.len() == 0 {
        m
    } else {
        step(run(m, es.drop_last()), es.last()).0
    }
}

/// Every event that the context takes keeps what holds between calls.
pub proof fn law_step_keeps_inv<L, T, A, D>(m: CtxModel<L, T, A, D>, e: CtxEvent<L, T, A, D>)
    requires
        m.inv(),
        accepts(m, e),
    ensures
        step(m, e).0.inv(),
{
    lemma_keys_differ();
    if let CtxEvent::LibraryOpened(_, pid) = e {
        lemma_decimal_round_trip(pid);
    }
}

/// Over any run of events that the context takes, from a context made by `Ctx::new` or any
/// other that keeps `inv`: `inv` still holds (so the context is busy exactly while an
/// operation is under way), and where the context keeps its data and resources is as it
/// was made.
pub proof fn law_run<L, T, A, D>(m: CtxModel<L, T, A, D>, es: Seq<CtxEvent<L, T, A, D>>)
    requires
        m.inv(),
        forall|i: int| 0 <= i < es.len() ==> #[trigger] accepts(run(m, es.take(i)), es[i]),
    ensures
        run(m, es).inv(),
        run(m, es).local_data_root == m.local_data_root,
        run(m, es).resources_dir == m.resources_dir,
    decreases es.len(),
{
    if es.len() > 0 {
        let p = es.drop_last();
        assert forall|i: int| 0 <= i < p.len() implies #[trigger] accepts(run(m, p.take(i)), p[i]) by {
            assert(p.take(i) =~= es.take(i));
            assert(accepts(run(m, es.take(i)), es[i]));
        }
        law_run(m, p);
        let k = es.len() - 1;
        assert(es.take(k) =~= p);
        assert(accepts(run(m, es.take(k)), es[k]));
        law_step_keeps_inv(run(m, p), es.last());
        law_steps_keep_paths_event(run(m, p), es.last());
    }
}

proof fn law_steps_keep_paths_event<L, T, A, D>(m: CtxModel<L, T, A, D>, e: CtxEvent<L, T, A, D>)
    ensures
        step(m, e).0.local_data_root == m.local_data_root,
        step(m, e).0.resources_dir == m.resources_dir,
{
}

/// Whatever reply ends a load or an unload, success or failure, the context is idle and
/// not busy after it, so the next load or unload is taken and not refused as busy.
pub proof fn law_reply_frees_context<L, T, A, D>(m: CtxModel<L, T, A, D>, e: CtxEvent<L, T, A, D>, id: Seq<char>)
    requires
        m.inv(),
        accepts(m, e),
        !(e is Load || e is Unload),
        step(m, e).1 is Reply,
    ensures
        !step(m, e).0.busy,
        step(m, e).0.phase is Idle,
        step(m, e).0.load(id).1 != reply_err(app_busy_error()),
        step(m, e).0.unload().1 != reply_err(app_busy_error()),
{
}

/// At most one load or unload is under way at a time: a request is taken only where the
/// context is idle, and once taken the context is busy until the operation replies.
pub proof fn law_one_operation_at_a_time<L, T, A, D>(m: CtxModel<L, T, A, D>, id: Seq<char>)
    requires
        m.inv(),
    ensures
        m.load(id).1 != reply_err(app_busy_error()) ==> m.phase is Idle && m.load(id).0.busy,
        m.unload().1 != reply_err(app_busy_error()) ==> m.phase is Idle && (m.unload().1 is Reply || m.unload().0.busy),
{
}

/// A store made by `Store::new` and then written only through `insert` and `delete`
/// holds, under each key, the value of the last insert under it, or nothing where no
/// insert came after the last delete or the key was never written.
pub proof fn law_new_store_after_writes(run: Seq<Store>, k: Seq<char>)
    requires
        run.len() > 0,
        run[0].entries_view() == Map::<Seq<char>, Seq<char>>::empty(),
        run[0].writes_view() == Seq::<StoreCall>::empty(),
        forall|i: int| 0 <= i < run.len() - 1 ==> #[trigger] one_write(run[i], run[i + 1]),
    ensures
        match last_write_for(run.last().writes(), k) {
            Some(StoreCall::Insert(_, v)) => run.last().entries().contains_key(k) && run.last().entries()[k] == v,
            _ => !run.last().entries().contains_key(k),
        },
{
    law_store_run(run);
    assert(run.last().writes().skip(0) =~= run.last().writes());
    law_store_last_write_wins(Map::empty(), run.last().writes(), k);
}

/// The library that a load phase is loading, if the phase is one of a load.
pub open spec fn loading_id(p: PhaseView) -> Option<Seq<char>> {
    match p {
        PhaseView::LoadCancel(id) | PhaseView::LoadTaskPool(id) | PhaseView::LoadSaveId(id)
        | PhaseView::LoadOpen(id) | PhaseView::LoadSavePid(id) | PhaseView::LoadSaveIdAgain(id)
        | PhaseView::LoadDownloadHub(id) | PhaseView::LoadAiHandler(id) | PhaseView::LoadLanguageModel(id)
        | PhaseView::LoadVisionModel(id, _) | PhaseView::LoadLanguageCollection(id, _)
        | PhaseView::LoadVisionCollection(id) => Some(id),
        _ => None,
    }
}

/// Whether a phase is one of an unload.
pub open spec fn unloading(p: PhaseView) -> bool {
    p is UnloadCancel || p is UnloadKill || p is UnloadShutdown || p is UnloadSave
}

/// Whenever an unload answers with success, whichever step it answers from, the context
/// holds no library and no task sender, the store holds neither the library id nor the
/// process id, and the context is free again.
pub proof fn law_unload_success_releases<L, T, A, D>(m: CtxModel<L, T, A, D>, e: CtxEvent<L, T, A, D>)
    requires
        m.inv(),
        accepts(m, e),
        unloading(m.phase),
        !(e is Load || e is Unload),
        step(m, e).1 == reply_ok(),
    ensures
        step(m, e).0.library is None,
        step(m, e).0.tx is None,
        !step(m, e).0.store.contains_key(library_id_key()),
        !step(m, e).0.store.contains_key(qdrant_pid_key()),
        !step(m, e).0.busy,
{
}

/// Whenever a load of `id` answers with success, whichever step it answers from, the
/// library, a task sender, a download hub and an AI handler are set, `id` is the library
/// id in the store, a process id is recorded there, and the context is free again.
pub proof fn law_load_success_sets_library<L, T, A, D>(
    m: CtxModel<L, T, A, D>,
    e: CtxEvent<L, T, A, D>,
    id: Seq<char>,
)
    requires
        m.inv(),
        accepts(m, e),
        loading_id(m.phase) == Some(id),
        !(e is Load || e is Unload),
        step(m, e).1 == reply_ok(),
    ensures
        step(m, e).0.library is Some,
        step(m, e).0.tx is Some,
        step(m, e).0.download_hub is Some,
        step(m, e).0.ai_handler is Some,
        step(m, e).0.store.contains_key(library_id_key()),
        step(m, e).0.store[library_id_key()] == id,
        step(m, e).0.stored_pid() is Some,
        !step(m, e).0.busy,
{
}

/// In a load, the outcome of cancelling the old tasks, success or failure, never ends the
/// load: a new task pool is asked for next and nothing else changes.
pub proof fn law_load_goes_on_after_cancel<L, T, A, D>(m: CtxModel<L, T, A, D>, id: Seq<char>, r: Result<(), String>)
    requires
        m.phase == PhaseView::LoadCancel(id),
    ensures
        m.tasks_cancelled(r).1 == CommandView::InitTaskPool,
        m.tasks_cancelled(r).0 == (CtxModel { phase: PhaseView::LoadTaskPool(id), ..m }),
{
}

/// The task sender of a new pool replaces whatever sender the context held.
pub proof fn law_new_task_pool_replaces_sender<L, T, A, D>(m: CtxModel<L, T, A, D>, id: Seq<char>, t: T)
    requires
        m.phase == PhaseView::LoadTaskPool(id),
    ensures
        m.task_pool_ready(t).0.tx == Some(t),
        m.task_pool_ready(t).1 == CommandView::SaveStore,
{
}

/// A new AI handler replaces whatever handler the context held.
pub proof fn law_new_ai_handler_replaces<L, T, A, D>(m: CtxModel<L, T, A, D>, id: Seq<char>, a: A)
    requires
        m.phase == PhaseView::LoadAiHandler(id),
    ensures
        m.ai_handler_ready(Ok(a)).0.ai_handler == Some(a),
{
}

/// A load of `id` on any idle context, every outside step succeeding and the cancelling
/// of old tasks (where there is a sender) having any outcome: it asks for a task pool,
/// opens `id`, and ends with success; the library, the task sender, the download hub and
/// the AI handler are then the ones it was handed, whatever the context held before, `id`
/// is the library id in the store and `pid` the recorded process id.
pub proof fn law_load_from_any_idle<L, T, A, D>(
    m: CtxModel<L, T, A, D>,
    id: Seq<char>,
    cancel: Result<(), String>,
    t: T,
    library: L,
    pid: u32,
    hub: D,
    ai: A,
    language: ModelInfo,
    vision: ModelInfo,
)
    requires
        m.inv(),
        !m.busy,
        language.dim is Some,
        vision.dim is Some,
    ensures
        ({
            let (m0, c0) = m.load(id);
            let (m1, c1) = if m.tx is Some {
                m0.tasks_cancelled(cancel)
            } else {
                (m0, c0)
            };
            let (m2, c2) = m1.task_pool_ready(t);
            let (m3, c3) = m2.store_saved();
            let (m4, c4) = m3.library_opened(library, pid);
            let (m5, c5) = m4.store_saved();
            let (m6, c6) = m5.store_saved();
            let (m7, c7) = m6.download_hub_ready(hub);
            let (m8, c8) = m7.ai_handler_ready(Ok(ai));
            let (m9, c9) = m8.language_model_resolved(Ok(language));
            let (m10, c10) = m9.vision_model_resolved(Ok(vision));
            let (m11, c11) = m10.collection_checked();
            let (m12, c12) = m11.collection_checked();
            &&& m.tx is Some ==> c0 == CommandView::SendCancelAll
            &&& c1 == CommandView::InitTaskPool
            &&& c3 == CommandView::OpenLibrary(id)
            &&& c12 == reply_ok()
            &&& !m12.busy
            &&& m12.library == Some(library)
            &&& m12.tx == Some(t)
            &&& m12.download_hub == Some(hub)
            &&& m12.ai_handler == Some(ai)
            &&& m12.store.contains_key(library_id_key())
            &&& m12.store[library_id_key()] == id
            &&& m12.stored_pid() == Some(pid)
        }),
{
    lemma_decimal_round_trip(pid);
    lemma_keys_differ();
}

/// The outcome of an outside step that succeeds, for the command that asked for it.
pub open spec fn unload_step_succeeds<L, T, A, D>(m: CtxModel<L, T, A, D>, c: CommandView) -> (CtxModel<L, T, A, D>, CommandView) {
    match c {
        CommandView::SendCancelAll => m.tasks_cancelled(Ok(())),
        CommandView::KillQdrant(_) => m.qdrant_killed(Ok(())),
        CommandView::ShutdownAiHandler => m.ai_handler_shut_down(Ok(())),
        CommandView::SaveStore => m.store_saved(),
        _ => (m, c),
    }
}

/// An unload of any idle context, every outside step succeeding (whether or not there is
/// a task sender, a recorded process id, an AI handler or a library): within five steps it
/// answers with success, and then holds no library and no task sender, the store holds
/// neither the library id nor the process id, and the context is free again.
pub proof fn law_unload_from_any_idle<L, T, A, D>(m: CtxModel<L, T, A, D>)
    requires
        m.inv(),
        !m.busy,
    ensures
        ({
            let s0 = m.unload();
            let s1 = unload_step_succeeds(s0.0, s0.1);
            let s2 = unload_step_succeeds(s1.0, s1.1);
            let s3 = unload_step_succeeds(s2.0, s2.1);
            let s4 = unload_step_succeeds(s3.0, s3.1);
            let s5 = unload_step_succeeds(s4.0, s4.1);
            &&& s5.1 == reply_ok()
            &&& s5.0.library is None
            &&& s5.0.tx is None
            &&& !s5.0.store.contains_key(library_id_key())
            &&& !s5.0.store.contains_key(qdrant_pid_key())
            &&& !s5.0.busy
        }),
{
    lemma_keys_differ();
}

/// What the collections of a library are: with no library, the no-library error; a failed
/// lookup of the text model gives its error; with the text model found, a failed lookup
/// of the image model gives its error, whatever the text model's dimension; and a success
/// names and sizes the text collection by the text model and the image collection by the
/// image model.
pub proof fn law_qdrant_info_results(
    has_library: bool,
    language: Result<ModelInfoView, ApiErrorView>,
    vision: Option<Result<ModelInfoView, ApiErrorView>>,
)
    ensures
        !has_library ==> qdrant_info_outcome(has_library, language, vision) == Err::<QdrantServerInfoView, ApiErrorView>(no_library_error()),
        has_library && language is Err ==> qdrant_info_outcome(has_library, language, vision) == Err::<QdrantServerInfoView, ApiErrorView>(language->Err_0),
        vision matches Some(Err(e)) ==> (has_library && language is Ok ==> qdrant_info_outcome(
            has_library,
            language,
            vision,
        ) == Err::<QdrantServerInfoView, ApiErrorView>(e)),
        qdrant_info_outcome(has_library, language, vision) matches Ok(info) ==> {
            &&& has_library
            &&& language matches Ok(l)
            &&& vision matches Some(Ok(v))
            &&& info.language_collection.name == l.collection_name
            &&& l.dim == Some(info.language_collection.dim)
            &&& info.vision_collection.name == v.collection_name
            &&& v.dim == Some(info.vision_collection.dim)
        },
{
}

} // verus!
