use draco_decoder::module_cache::{
    module_cache_step, ModuleCacheAction, ModuleCacheEvent, ModuleCacheState,
};

use draco_decoder::module_cache::ModuleCacheAction::{
    AwaitLoad, Ignore, ReportFailure, StartLoad, Store, UseCached,
};
use draco_decoder::module_cache::ModuleCacheEvent::{LoadFailed, LoadSucceeded, Requested};
use draco_decoder::module_cache::ModuleCacheState::{Empty, Loading, Ready};

/// Runs `events` from an empty cache; returns the cache and what was done.
fn run(events: &[ModuleCacheEvent]) -> (ModuleCacheState, Vec<ModuleCacheAction>) {
    let mut state = Empty;
    let mut actions = Vec::new();
    for event in events {
        let (next, action) = module_cache_step(state, *event);
        state = next;
        actions.push(action);
    }
    (state, actions)
}

#[test]
fn cache_rule_in_every_state_on_every_event() {
    assert_eq!(module_cache_step(Empty, Requested), (Loading, StartLoad));
    assert_eq!(module_cache_step(Empty, LoadSucceeded), (Empty, Ignore));
    assert_eq!(module_cache_step(Empty, LoadFailed), (Empty, Ignore));
    assert_eq!(module_cache_step(Loading, Requested), (Loading, AwaitLoad));
    assert_eq!(module_cache_step(Loading, LoadSucceeded), (Ready, Store));
    assert_eq!(module_cache_step(Loading, LoadFailed), (Empty, ReportFailure));
    assert_eq!(module_cache_step(Ready, Requested), (Ready, UseCached));
    assert_eq!(module_cache_step(Ready, LoadSucceeded), (Ready, Ignore));
    assert_eq!(module_cache_step(Ready, LoadFailed), (Ready, Ignore));
}

#[test]
fn callers_at_once_share_one_load() {
    let (state, actions) = run(&[Requested, Requested, Requested, LoadSucceeded, Requested]);
    assert_eq!(state, Ready);
    assert_eq!(actions, vec![StartLoad, AwaitLoad, AwaitLoad, Store, UseCached]);
}

#[test]
fn failed_load_may_be_tried_again() {
    let (state, actions) =
        run(&[Requested, Requested, LoadFailed, Requested, LoadSucceeded, Requested, LoadFailed]);
    assert_eq!(state, Ready);
    assert_eq!(
        actions,
        vec![StartLoad, AwaitLoad, ReportFailure, StartLoad, Store, UseCached, Ignore]
    );
}

#[test]
fn at_most_one_load_under_way_and_one_store_ever() {
    let events = [Requested, LoadSucceeded, LoadFailed];
    // every sequence of up to six events
    for len in 0..=6u32 {
        for code in 0..3usize.pow(len) {
            let mut sequence = Vec::new();
            let mut rest = code;
            for _ in 0..len {
                sequence.push(events[rest % 3]);
                rest /= 3;
            }
            let (state, actions) = run(&sequence);
            let count = |action: ModuleCacheAction| actions.iter().filter(|a| **a == action).count();
            let under_way = count(StartLoad) - count(Store) - count(ReportFailure);
            assert_eq!(under_way, if state == Loading { 1 } else { 0 });
            assert_eq!(count(Store), if state == Ready { 1 } else { 0 });
        }
    }
}
