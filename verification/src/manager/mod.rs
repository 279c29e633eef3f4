//! Audio manager state and decisions: the device tables, card lifecycle,
//! port-switch coordination and the handling of server notifications.

pub mod card;
pub mod coordinator;
pub mod device_manager;
pub mod meter;
pub mod registry;
pub mod sink;
pub mod sink_input;
pub mod source;
pub mod event_loop;
pub mod mono;

use vstd::prelude::*;

use crate::backend::pulse::module::{module_state_of, ModuleState};
use crate::text::str_eq;
use card::Card;
use device_manager::{DeviceManager, DeviceTables, SinkInputState, SinkState, SourceState};

verus! {

/// The card table after recording `cards` in order, each under its own index.
pub open spec fn with_cards(m: Map<u32, Card>, cards: Seq<Card>) -> Map<u32, Card>
    decreases cards.len(),
{
    if cards.len() == 0 {
        m
    } else {
        with_cards(m, cards.drop_last()).insert(cards.last().index, cards.last())
    }
}

/// The sink table after recording `sinks` in order, each under its own index.
pub open spec fn with_sinks(m: Map<u32, SinkState>, sinks: Seq<SinkState>) -> Map<u32, SinkState>
    decreases sinks.len(),
{
    if sinks.len() == 0 {
        m
    } else {
        with_sinks(m, sinks.drop_last()).insert(sinks.last().index, sinks.last())
    }
}

/// The source table after recording `sources` in order, each under its own index.
pub open spec fn with_sources(m: Map<u32, SourceState>, sources: Seq<SourceState>) -> Map<u32, SourceState>
    decreases sources.len(),
{
    if sources.len() == 0 {
        m
    } else {
        with_sources(m, sources.drop_last()).insert(sources.last().index, sources.last())
    }
}

/// The stream table after recording `streams` in order, each under its own index.
pub open spec fn with_sink_inputs(m: Map<u32, SinkInputState>, streams: Seq<SinkInputState>) -> Map<u32, SinkInputState>
    decreases streams.len(),
{
    if streams.len() == 0 {
        m
    } else {
        with_sink_inputs(m, streams.drop_last()).insert(streams.last().index, streams.last())
    }
}

/// Start-up filling of the tables from the server's current devices: the
/// cards, sinks, sources and streams are recorded in order, each under its own
/// index, and the default devices are recorded when their query succeeded.
pub fn fill_tables(
    device_manager: &mut DeviceManager,
    cards: Vec<Card>,
    sinks: Vec<SinkState>,
    sources: Vec<SourceState>,
    sink_inputs: Vec<SinkInputState>,
    defaults: Result<(String, String), String>,
)
    ensures
        final(device_manager)@.cards == with_cards(old(device_manager)@.cards, cards@),
        final(device_manager)@.sinks == with_sinks(old(device_manager)@.sinks, sinks@),
        final(device_manager)@.sources == with_sources(old(device_manager)@.sources, sources@),
        final(device_manager)@.sink_inputs == with_sink_inputs(old(device_manager)@.sink_inputs, sink_inputs@),
        final(device_manager)@.pending_profiles == old(device_manager)@.pending_profiles,
        final(device_manager)@.modules == old(device_manager)@.modules,
        final(device_manager)@.sink_meters == old(device_manager)@.sink_meters,
        final(device_manager)@.source_meters == old(device_manager)@.source_meters,
        match defaults {
            Ok((sink, source)) => final(device_manager)@.default_sink == Some(sink)
                && final(device_manager)@.default_source == Some(source),
            Err(_) => final(device_manager)@.default_sink == old(device_manager)@.default_sink
                && final(device_manager)@.default_source == old(device_manager)@.default_source,
        },
{
    let ghost before = device_manager@;
    let ghost all = cards@;
    for item in it: cards.into_iter()
        invariant
            it.seq() == all,
            device_manager@ == (DeviceTables { cards: with_cards(before.cards, all.take(it.index())), ..before }),
    {
        proof {
            assert(all.take(it.index() + 1).drop_last() == all.take(it.index()));
        }
        let index = item.index;
        device_manager.add_card(index, item);
    }
    proof {
        assert(all.take(all.len() as int) == all);
    }
    let ghost before = device_manager@;
    let ghost all = sinks@;
    for item in it: sinks.into_iter()
        invariant
            it.seq() == all,
            device_manager@ == (DeviceTables { sinks: with_sinks(before.sinks, all.take(it.index())), ..before }),
    {
        proof {
            assert(all.take(it.index() + 1).drop_last() == all.take(it.index()));
        }
        let index = item.index;
        device_manager.add_sink(index, item);
    }
    proof {
        assert(all.take(all.len() as int) == all);
    }
    let ghost before = device_manager@;
    let ghost all = sources@;
    for item in it: sources.into_iter()
        invariant
            it.seq() == all,
            device_manager@ == (DeviceTables { sources: with_sources(before.sources, all.take(it.index())), ..before }),
    {
        proof {
            assert(all.take(it.index() + 1).drop_last() == all.take(it.index()));
        }
        let index = item.index;
        device_manager.add_source(index, item);
    }
    proof {
        assert(all.take(all.len() as int) == all);
    }
    let ghost before = device_manager@;
    let ghost all = sink_inputs@;
    for item in it: sink_inputs.into_iter()
        invariant
            it.seq() == all,
            device_manager@ == (DeviceTables { sink_inputs: with_sink_inputs(before.sink_inputs, all.take(it.index())), ..before }),
    {
        proof {
            assert(all.take(it.index() + 1).drop_last() == all.take(it.index()));
        }
        let index = item.index;
        device_manager.add_sink_input(index, item);
    }
    proof {
        assert(all.take(all.len() as int) == all);
    }
    if let Ok((sink, source)) = defaults {
        device_manager.set_default_sink(sink);
        device_manager.set_default_source(source);
    }
}

/// Whether the server's module entry `m` (its name, if any, and index) is named `name`.
pub open spec fn module_named(m: (Option<String>, u32), name: Seq<char>) -> bool {
    m.0 matches Some(n) && n@ == name
}

/// The index of the last module named `name` in the server's module list
/// `modules`, if there is one.
pub open spec fn last_module_index_spec(modules: Seq<(Option<String>, u32)>, name: Seq<char>) -> Option<u32>
    decreases modules.len(),
{
    if modules.len() == 0 {
        None
    } else if module_named(modules.last(), name) {
        Some(modules.last().1)
    } else {
        last_module_index_spec(modules.drop_last(), name)
    }
}

/// The module index found for a name is that of the last entry of the list
/// with that name: some entry has that name and index, no later entry has
/// the name; and no index is found exactly when no entry has the name.
pub proof fn law_last_module_wins(modules: Seq<(Option<String>, u32)>, name: Seq<char>)
    ensures
        last_module_index_spec(modules, name) matches Some(index) ==> exists|j: int| {
            &&& 0 <= j < modules.len()
            &&& #[trigger] modules[j].0 matches Some(n) && n@ == name
            &&& modules[j].1 == index
            &&& forall|k: int| j < k < modules.len() ==> !(#[trigger] modules[k].0 matches Some(n) && n@ == name)
        },
        last_module_index_spec(modules, name) is None <==> forall|j: int| 0 <= j < modules.len()
            ==> !(#[trigger] modules[j].0 matches Some(n) && n@ == name),
    decreases modules.len(),
{
    if modules.len() > 0 {
        let rest = modules.drop_last();
        law_last_module_wins(rest, name);
        let last = modules.len() - 1;
        if modules[last].0 matches Some(n) && n@ == name {
            assert(modules[last].0 matches Some(n) && n@ == name);
        } else {
            assert forall|j: int| 0 <= j < rest.len() implies #[trigger] rest[j] == modules[j] by {}
            if let Some(index) = last_module_index_spec(modules, name) {
                let j = choose|j: int| {
                    &&& 0 <= j < rest.len()
                    &&& #[trigger] rest[j].0 matches Some(n) && n@ == name
                    &&& rest[j].1 == index
                    &&& forall|k: int| j < k < rest.len() ==> !(#[trigger] rest[k].0 matches Some(n) && n@ == name)
                };
                assert(modules[j] == rest[j]);
                assert forall|k: int| j < k < modules.len() implies !(#[trigger] modules[k].0 matches Some(n) && n@ == name) by {
                    if k < last {
                        assert(modules[k] == rest[k]);
                    }
                }
            }
            if last_module_index_spec(modules, name) is None {
                assert forall|j: int| 0 <= j < modules.len() implies !(#[trigger] modules[j].0 matches Some(n) && n@ == name) by {
                    if j < last {
                        assert(modules[j] == rest[j]);
                    }
                }
            } else {
                if forall|j: int| 0 <= j < modules.len() ==> !(#[trigger] modules[j].0 matches Some(n) && n@ == name) {
                    assert forall|j: int| 0 <= j < rest.len() implies !(#[trigger] rest[j].0 matches Some(n) && n@ == name) by {
                        assert(modules[j] == rest[j]);
                    }
                }
            }
        }
    }
}

/// The index of the loaded module `name`, from the server's module list (each
/// module's name, if any, and index, in the order the server lists them):
/// the last module of that name.
pub fn last_module_index(modules: &Vec<(Option<String>, u32)>, name: &str) -> (r: Option<u32>)
    ensures
        r == last_module_index_spec(modules@, name@),
{
    let mut found: Option<u32> = None;
    for i in 0..modules.len()
        invariant
            found == last_module_index_spec(modules@.take(i as int), name@),
    {
        proof {
            assert(modules@.take(i + 1).drop_last() == modules@.take(i as int));
        }
        let named = match &modules[i].0 {
            Some(n) => str_eq(n.as_str(), name),
            None => false,
        };
        if named {
            found = Some(modules[i].1);
        }
    }
    proof {
        assert(modules@.take(modules@.len() as int) == modules@);
    }
    found
}

/// The answer to the query for module `name`: the server's module list, or
/// its error.
pub fn find_module_index(modules: Result<Vec<(Option<String>, u32)>, String>, name: &str) -> (r: Result<Option<u32>, String>)
    ensures
        match modules {
            Err(e) => r == Err::<Option<u32>, String>(e),
            Ok(list) => r == Ok::<Option<u32>, String>(last_module_index_spec(list@, name@)),
        },
{
    let list = modules?;
    Ok(last_module_index(&list, name))
}

/// First step of loading the server module `name`: whether it is loaded
/// already, in which case there is nothing to do.
pub fn module_loaded(device_manager: &DeviceManager, name: &str) -> (r: bool)
    ensures
        r == (module_state_of(device_manager@.modules, name@) is Complete),
{
    match device_manager.module_state(name) {
        ModuleState::Complete { .. } => true,
        _ => false,
    }
}

/// Second step of loading module `name`, with the server's module list (or
/// the error of that query). A module of that name loaded already (by another
/// client) is recorded as complete under the index of the last such module;
/// otherwise the module is recorded as loading since `now_ms`, and the result
/// says that the load is to be requested.
pub fn record_module_query(
    device_manager: &mut DeviceManager,
    name: &str,
    modules: Result<Vec<(Option<String>, u32)>, String>,
    now_ms: u64,
) -> (r: Result<bool, String>)
    ensures
        match modules {
            Err(e) => r == Err::<bool, String>(e) && final(device_manager)@ == old(device_manager)@,
            Ok(list) => match last_module_index_spec(list@, name@) {
                Some(index) => r == Ok::<bool, String>(false) && final(device_manager)@ == (DeviceTables {
                    modules: old(device_manager)@.modules.insert(name@, ModuleState::Complete { module_index: index }),
                    ..old(device_manager)@
                }),
                None => r == Ok::<bool, String>(true) && final(device_manager)@ == (DeviceTables {
                    modules: old(device_manager)@.modules.insert(name@, ModuleState::Loading { loaded_at_ms: now_ms }),
                    ..old(device_manager)@
                }),
            },
        },
{
    match find_module_index(modules, name)? {
        Some(index) => {
            device_manager.set_module_state(name, ModuleState::Complete { module_index: index });
            Ok(false)
        },
        None => {
            device_manager.set_module_state(name, ModuleState::Loading { loaded_at_ms: now_ms });
            Ok(true)
        },
    }
}

/// Last step of loading module `name`, with the server's answer to the load
/// request: the new module's index, or the error (the module then stays
/// recorded as loading).
pub fn record_module_loaded(device_manager: &mut DeviceManager, name: &str, loaded: Result<u32, String>) -> (r: Result<(), String>)
    ensures
        match loaded {
            Err(e) => r == Err::<(), String>(e) && final(device_manager)@ == old(device_manager)@,
            Ok(index) => r is Ok && final(device_manager)@ == (DeviceTables {
                modules: old(device_manager)@.modules.insert(name@, ModuleState::Complete { module_index: index }),
                ..old(device_manager)@
            }),
        },
{
    let index = loaded?;
    device_manager.set_module_state(name, ModuleState::Complete { module_index: index });
    Ok(())
}

/// A module found loaded, or loaded on request, is complete afterwards, so
/// that the next load of the same name does nothing; other modules keep
/// their state.
pub proof fn law_module_load_completes(t: Map<Seq<char>, ModuleState>, name: Seq<char>, other: Seq<char>, now_ms: u64, index: u32)
    ensures
        module_state_of(t.insert(name, ModuleState::Complete { module_index: index }), name) is Complete,
        module_state_of(t.insert(name, ModuleState::Loading { loaded_at_ms: now_ms }).insert(name, ModuleState::Complete { module_index: index }), name)
            == (ModuleState::Complete { module_index: index }),
        other != name ==> module_state_of(t.insert(name, ModuleState::Complete { module_index: index }), other) == module_state_of(t, other),
{
}

} // verus!
