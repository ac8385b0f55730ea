//! The cache that holds the decode module of the off-thread path.
//!
//! The module is loaded at most once at a time and kept once it is there. The
//! cache itself lives with whoever loads the module; this is its rule: what
//! to do when a caller asks for the module, and when a load ends.

use vstd::prelude::*;

verus! {

/// What the cache holds.
#[derive(Debug, Clone, Copy, PartialEq, Eq, Structural)]
pub enum ModuleCacheState {
    /// No module, and no load under way.
    Empty,
    /// No module yet; one load is under way.
    Loading,
    /// The module is there.
    Ready,
}

/// What happens to the cache.
#[derive(Debug, Clone, Copy, PartialEq, Eq, Structural)]
pub enum ModuleCacheEvent {
    /// A caller asks for the module.
    Requested,
    /// The load under way has brought the module.
    LoadSucceeded,
    /// The load under way has failed.
    LoadFailed,
}

/// What is to be done on an event.
#[derive(Debug, Clone, Copy, PartialEq, Eq, Structural)]
pub enum ModuleCacheAction {
    /// Start loading the module; the caller waits for this load.
    StartLoad,
    /// Wait for the load that is under way.
    AwaitLoad,
    /// Hand the caller the module that is cached.
    UseCached,
    /// Put the module that was loaded into the cache, and hand it to all who wait.
    Store,
    /// Tell all who wait that the module could not be loaded.
    ReportFailure,
    /// Nothing: the event answers no load of this cache.
    Ignore,
}

/// The rule of the cache.
///
/// A request starts a load only where there is neither a module nor a load
/// under way. The end of a load counts only while one is under way: success
/// fills the cache, failure empties it again so that a later caller may try.
pub open spec fn cache_step(state: ModuleCacheState, event: ModuleCacheEvent) -> (
    ModuleCacheState,
    ModuleCacheAction,
) {
    match (state, event) {
        (ModuleCacheState::Empty, ModuleCacheEvent::Requested) => (
            ModuleCacheState::Loading,
            ModuleCacheAction::StartLoad,
        ),
        (ModuleCacheState::Loading, ModuleCacheEvent::Requested) => (
            ModuleCacheState::Loading,
            ModuleCacheAction::AwaitLoad,
        ),
        (ModuleCacheState::Ready, ModuleCacheEvent::Requested) => (
            ModuleCacheState::Ready,
            ModuleCacheAction::UseCached,
        ),
        (ModuleCacheState::Loading, ModuleCacheEvent::LoadSucceeded) => (
            ModuleCacheState::Ready,
            ModuleCacheAction::Store,
        ),
        (ModuleCacheState::Loading, ModuleCacheEvent::LoadFailed) => (
            ModuleCacheState::Empty,
            ModuleCacheAction::ReportFailure,
        ),
        (_, _) => (state, ModuleCacheAction::Ignore),
    }
}

/// Says what the cache becomes on `event`, and what is to be done.
pub fn module_cache_step(state: ModuleCacheState, event: ModuleCacheEvent) -> (next: (
    ModuleCacheState,
    ModuleCacheAction,
))
    ensures
        next == cache_step(state, event),
{
    match (state, event) {
        (ModuleCacheState::Empty, ModuleCacheEvent::Requested) => (
            ModuleCacheState::Loading,
            ModuleCacheAction::StartLoad,
        ),
        (ModuleCacheState::Loading, ModuleCacheEvent::Requested) => (
            ModuleCacheState::Loading,
            ModuleCacheAction::AwaitLoad,
        ),
        (ModuleCacheState::Ready, ModuleCacheEvent::Requested) => (
            ModuleCacheState::Ready,
            ModuleCacheAction::UseCached,
        ),
        (ModuleCacheState::Loading, ModuleCacheEvent::LoadSucceeded) => (
            ModuleCacheState::Ready,
            ModuleCacheAction::Store,
        ),
        (ModuleCacheState::Loading, ModuleCacheEvent::LoadFailed) => (
            ModuleCacheState::Empty,
            ModuleCacheAction::ReportFailure,
        ),
        (_, _) => (state, ModuleCacheAction::Ignore),
    }
}

/// The cache after `events`, one after the other, from `state`.
pub open spec fn cache_after(state: ModuleCacheState, events: Seq<ModuleCacheEvent>) -> ModuleCacheState
    decreases events.len(),
{
    if events.len() == 0 {
        state
    } else {
        cache_step(cache_after(state, events.drop_last()), events.last()).0
    }
}

/// How often `action` is called for while `events` happen from `state`.
pub open spec fn times_done(
    state: ModuleCacheState,
    events: Seq<ModuleCacheEvent>,
    action: ModuleCacheAction,
) -> nat
    decreases events.len(),
{
    if events.len() == 0 {
        0
    } else {
        let earlier = times_done(state, events.drop_last(), action);
        if cache_step(cache_after(state, events.drop_last()), events.last()).1 == action {
            earlier + 1
        } else {
            earlier
        }
    }
}

/// Whatever happens to a cache that starts empty, and in whatever order:
/// - no two loads are under way at once: the loads started are the loads
///   that have ended, and one more exactly while the cache is loading;
/// - the module is stored at most once, and it is stored exactly if the cache
///   is ready: the first load that succeeds fills the cache for good.
pub proof fn lemma_one_load_one_store(events: Seq<ModuleCacheEvent>)
    ensures
        ({
            let state = cache_after(ModuleCacheState::Empty, events);
            let started = times_done(ModuleCacheState::Empty, events, ModuleCacheAction::StartLoad);
            let stored = times_done(ModuleCacheState::Empty, events, ModuleCacheAction::Store);
            let failed = times_done(ModuleCacheState::Empty, events, ModuleCacheAction::ReportFailure);
            &&& state == ModuleCacheState::Loading ==> started == stored + failed + 1
            &&& state != ModuleCacheState::Loading ==> started == stored + failed
            &&& state == ModuleCacheState::Ready ==> stored == 1
            &&& state != ModuleCacheState::Ready ==> stored == 0
        }),
    decreases events.len(),
{
    if events.len() > 0 {
        lemma_one_load_one_store(events.drop_last());
    }
}

/// A cache that is ready stays ready, and no event makes it load or store
/// again: every caller from then on is handed the module that is cached.
pub proof fn lemma_ready_is_final(event: ModuleCacheEvent)
    ensures
        cache_step(ModuleCacheState::Ready, event).0 == ModuleCacheState::Ready,
        cache_step(ModuleCacheState::Ready, event).1 != ModuleCacheAction::StartLoad,
        cache_step(ModuleCacheState::Ready, event).1 != ModuleCacheAction::Store,
        event == ModuleCacheEvent::Requested ==> cache_step(ModuleCacheState::Ready, event).1
            == ModuleCacheAction::UseCached,
{
}

} // verus!
