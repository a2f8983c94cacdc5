//! What holds of the registry when the environment does what it is asked.
//!
//! The registry only decides; whether a droplet can be created and found
//! again depends on the durable store, the artifact cache, the source files,
//! the compiler and the loader as well. This file describes an environment
//! that answers every request truthfully and without faults of its own, and
//! proves what creating, overwriting and restarting come to in it.

use crate::config::RootConfigView;
use crate::droplet::{BuildEventView, BuildStageView, DropletHandleView, HandleBuildView};
use crate::error::DropletErrorView;
use crate::foreign::compiled;
use crate::invocation::{completed_run, planned_run, InvocationView, RunEventView, RunStageView};
use crate::quantity::parse_quantity;
use crate::registry::{restored, started_run};
use vstd::utf8::{decode_utf8, valid_utf8};
use crate::registry::{create_begin, create_step, CreateEventView, CreateStageView};
use std::path::PathBuf;
use vstd::prelude::*;
use wasmtime::component::Component;
use wasmtime::Engine;

verus! {

/// All that the registry's decisions rest on and act upon.
pub struct World {
    /// The durable store: the definition kept under each name.
    pub records: Map<Seq<char>, RootConfigView>,
    /// The durable store as it was before the last definition was written.
    pub kept: Map<Seq<char>, RootConfigView>,
    /// The artifact cache: the compiled artifact kept under each name.
    pub cache: Map<Seq<char>, Seq<u8>>,
    /// The files that hold source bytes, by path.
    pub files: Map<PathBuf, Seq<u8>>,
    /// The live map of the registry.
    pub live: Map<Seq<char>, DropletHandleView>,
}

/// The engine that compiles, and the loader: what it makes of the bytes of
/// an artifact, or `None` where it refuses them.
pub struct Tools {
    pub engine: Engine,
    pub loader: spec_fn(Seq<u8>) -> Option<Component>,
}

/// What a map holds under a key, if anything.
pub open spec fn entry<K, V>(map: Map<K, V>, key: K) -> Option<V> {
    if map.contains_key(key) {
        Some(map[key])
    } else {
        None
    }
}

/// The truthful answer to what the making of a handle waits for, and the
/// world after it. Only writing the cache changes the world.
pub open spec fn build_reply(world: World, tools: Tools, build: HandleBuildView) -> (
    World,
    BuildEventView,
) {
    let name = build.definition.name();
    match build.stage {
        BuildStageView::Probing => (
            world,
            BuildEventView::CacheProbed(Some(world.cache.contains_key(name))),
        ),
        BuildStageView::ReadingCache => (
            world,
            BuildEventView::CacheRead(entry(world.cache, name)),
        ),
        BuildStageView::ReadingSource => (
            world,
            BuildEventView::SourceRead(entry(world.files, build.definition.source_path())),
        ),
        BuildStageView::Compiling { source } => (
            world,
            BuildEventView::Compiled(compiled(tools.engine, source)),
        ),
        BuildStageView::WritingCache { artifact } => (
            World { cache: world.cache.insert(name, artifact), ..world },
            BuildEventView::CacheWritten(true),
        ),
        BuildStageView::Loading { artifact } => (
            world,
            BuildEventView::ArtifactLoaded((tools.loader)(artifact)),
        ),
        _ => (world, BuildEventView::CacheWritten(true)),
    }
}

/// The truthful answer to what the creation of a droplet waits for, and the
/// world after it.
pub open spec fn create_reply(world: World, tools: Tools, stage: CreateStageView) -> (
    World,
    CreateEventView,
) {
    match stage {
        CreateStageView::Persisting { definition } => (
            World {
                records: world.records.insert(definition.name(), definition),
                kept: world.records,
                ..world
            },
            CreateEventView::Persisted(true),
        ),
        CreateStageView::Building { build } => {
            let (next, event) = build_reply(world, tools, build);
            (next, CreateEventView::Build(event))
        },
        CreateStageView::Restoring { .. } => (
            World { records: world.kept, ..world },
            CreateEventView::Restored(true),
        ),
        _ => (world, CreateEventView::Persisted(true)),
    }
}

/// The making of a handle carried on for at most `steps` truthful answers.
pub open spec fn build_run(world: World, tools: Tools, build: HandleBuildView, steps: nat) -> (
    World,
    HandleBuildView,
)
    decreases steps,
{
    if steps == 0 || build.stage is Built || build.stage is Failed {
        (world, build)
    } else {
        let (next, event) = build_reply(world, tools, build);
        build_run(next, tools, build.step(event), (steps - 1) as nat)
    }
}

/// The creation of a droplet carried on for at most `steps` truthful
/// answers.
pub open spec fn create_run(world: World, tools: Tools, stage: CreateStageView, steps: nat) -> (
    World,
    CreateStageView,
)
    decreases steps,
{
    if steps == 0 || stage is Ready || stage is Failed {
        (world, stage)
    } else {
        let (next, event) = create_reply(world, tools, stage);
        create_run(next, tools, create_step(stage, event), (steps - 1) as nat)
    }
}

/// The artifact that a droplet gets in a world: the cached one where the
/// cache holds the name, whatever the source is by now; else what the
/// compiler makes of the source.
pub open spec fn artifact_for(world: World, tools: Tools, definition: RootConfigView) -> Result<
    Seq<u8>,
    DropletErrorView,
> {
    if world.cache.contains_key(definition.name()) {
        Ok(world.cache[definition.name()])
    } else {
        match entry(world.files, definition.source_path()) {
            None => Err(DropletErrorView::SourceReadError),
            Some(source) => match compiled(tools.engine, source) {
                None => Err(DropletErrorView::CompileError),
                Some(artifact) => Ok(artifact),
            },
        }
    }
}

/// The handle that a definition gets in a world, or why it gets none.
pub open spec fn handle_for(world: World, tools: Tools, definition: RootConfigView) -> Result<
    DropletHandleView,
    DropletErrorView,
> {
    match artifact_for(world, tools, definition) {
        Err(error) => Err(error),
        Ok(artifact) => match (tools.loader)(artifact) {
            None => Err(DropletErrorView::CompileError),
            Some(component) => Ok(DropletHandleView { definition, artifact, component }),
        },
    }
}

/// The number of answers within which every creation has ended.
pub open spec fn enough_steps() -> nat {
    8
}

/// A whole `create`: the creation carried on to its end, and the handle
/// published where it was made.
pub open spec fn created(world: World, tools: Tools, definition: Option<RootConfigView>) -> (
    World,
    CreateStageView,
) {
    let (after, stage) = create_run(world, tools, create_begin(definition), enough_steps());
    match stage {
        CreateStageView::Ready { handle } => (
            World { live: after.live.insert(handle.definition.name(), handle), ..after },
            stage,
        ),
        _ => (after, stage),
    }
}

/// A whole `run` as far as the registry decides it: the run planned for the
/// droplet under the name, or that there is none.
pub open spec fn run_started(world: World, name: Seq<char>) -> Result<
    InvocationView,
    DropletErrorView,
> {
    started_run(world.live, name)
}

/// Whether a definition can be run at all: its memory budget is a quantity.
pub open spec fn runnable(definition: RootConfigView) -> bool {
    parse_quantity(definition.runtime().resources.memory) is Ok
}

/// The making of a handle, from its start, ends within six answers: with the
/// handle that the definition gets in this world, or with the reason why it
/// gets none. The cache gains the artifact where it was compiled; nothing
/// else changes.
pub proof fn lemma_build_outcome(world: World, tools: Tools, definition: RootConfigView)
    ensures
        ({
            let start = HandleBuildView { definition, stage: BuildStageView::Probing };
            let (after, build) = build_run(world, tools, start, 6);
            &&& build.definition == definition
            &&& after.records == world.records
            &&& after.kept == world.kept
            &&& after.files == world.files
            &&& after.live == world.live
            &&& match handle_for(world, tools, definition) {
                Ok(handle) => {
                    &&& build.stage == (BuildStageView::Built {
                        artifact: handle.artifact,
                        component: handle.component,
                    })
                    &&& after.cache == world.cache.insert(definition.name(), handle.artifact)
                },
                Err(error) => build.stage == (BuildStageView::Failed { error }),
            }
        }),
{
    reveal_with_fuel(build_run, 7);
    let name = definition.name();
    if world.cache.contains_key(name) {
        assert(world.cache.insert(name, world.cache[name]) =~= world.cache);
    }
}

/// What a whole `create` comes to.
///
/// Without a definition it fails with a parse error and the world is as
/// before. With one, it succeeds exactly where the definition gets a handle:
/// then the durable store and the live map hold the new definition and
/// handle under the name, and the cache holds the handle's artifact. Where it
/// fails, the error is the reason why there is no handle, and the durable
/// store and the live map are as before.
pub proof fn lemma_create_outcome(world: World, tools: Tools, definition: Option<RootConfigView>)
    ensures
        ({
            let (after, stage) = created(world, tools, definition);
            match definition {
                None => after == world && stage == (CreateStageView::Failed {
                    error: DropletErrorView::ConfigParseError,
                }),
                Some(definition) => match handle_for(world, tools, definition) {
                    Ok(handle) => {
                        &&& stage == (CreateStageView::Ready { handle })
                        &&& after.records == world.records.insert(definition.name(), definition)
                        &&& after.cache == world.cache.insert(definition.name(), handle.artifact)
                        &&& after.live == world.live.insert(definition.name(), handle)
                        &&& after.files == world.files
                    },
                    Err(error) => {
                        &&& stage == (CreateStageView::Failed { error })
                        &&& after.records == world.records
                        &&& after.live == world.live
                        &&& after.files == world.files
                    },
                },
            }
        }),
{
    reveal_with_fuel(create_run, 9);
    match definition {
        None => {},
        Some(definition) => {
            let name = definition.name();
            if world.cache.contains_key(name) {
                assert(world.cache.insert(name, world.cache[name]) =~= world.cache);
            }
        },
    }
}

/// A droplet that was created is found and run: right after a `create` that
/// succeeded, a `run` under the definition's name starts the run that this
/// very definition asks for. Where the definition can be run and the run
/// goes to its end without a fault, it returns exactly the bytes that the
/// code wrote, decoded as UTF-8.
pub proof fn lemma_create_then_run(
    world: World,
    tools: Tools,
    definition: RootConfigView,
    output: Seq<u8>,
)
    requires
        handle_for(world, tools, definition) is Ok,
    ensures
        ({
            let (after, stage) = created(world, tools, Some(definition));
            let started = run_started(after, definition.name());
            &&& stage is Ready
            &&& after.live.contains_key(definition.name())
            &&& after.live[definition.name()].definition == definition
            &&& started == planned_run(
                definition.runtime(),
                after.live[definition.name()].component,
            )
            &&& runnable(definition) ==> started is Ok
            &&& runnable(definition) && valid_utf8(output) ==> completed_run(
                started->Ok_0,
                output,
            ).stage == (RunStageView::Done { stdout: decode_utf8(output) })
        }),
{
    lemma_create_outcome(world, tools, Some(definition));
}

/// A second `create` under a name replaces the first as a whole: after it,
/// the durable store and the live map hold the second definition under the
/// name and nothing of the first, and a `run` starts what the second
/// definition asks for. The artifact is the one that the cache held after
/// the first `create`: the cache goes by the name and does not look at the
/// source again.
pub proof fn lemma_overwrite(
    world: World,
    tools: Tools,
    first: RootConfigView,
    second: RootConfigView,
)
    requires
        first.name() == second.name(),
        handle_for(world, tools, first) is Ok,
    ensures
        ({
            let name = second.name();
            let (between, _) = created(world, tools, Some(first));
            let (after, stage) = created(between, tools, Some(second));
            &&& stage is Ready
            &&& after.records[name] == second
            &&& after.live[name].definition == second
            &&& after.live[name].artifact == between.live[name].artifact
            &&& after.live[name].artifact == handle_for(world, tools, first)->Ok_0.artifact
            &&& run_started(after, name) == planned_run(
                second.runtime(),
                after.live[name].component,
            )
        }),
{
    lemma_create_outcome(world, tools, Some(first));
    let (between, _) = created(world, tools, Some(first));
    lemma_create_outcome(between, tools, Some(second));
}

/// A second `create` under a name reflects the second definition alone where
/// the cache does not hold the name at that time: then the artifact, too, is
/// made of the second definition's source.
pub proof fn lemma_overwrite_without_cache(world: World, tools: Tools, second: RootConfigView)
    requires
        !world.cache.contains_key(second.name()),
        handle_for(world, tools, second) is Ok,
    ensures
        ({
            let name = second.name();
            let (after, stage) = created(world, tools, Some(second));
            &&& stage is Ready
            &&& after.live[name].definition == second
            &&& Some(after.live[name].artifact) == compiled(tools.engine, 
                world.files[second.source_path()],
            )
        }),
{
    lemma_create_outcome(world, tools, Some(second));
}

/// A `run` under a name that the live map does not hold is reported as a
/// droplet not found.
pub proof fn lemma_unknown_name(world: World, name: Seq<char>)
    requires
        !world.live.contains_key(name),
    ensures
        run_started(world, name) == Err::<InvocationView, DropletErrorView>(
            DropletErrorView::DropletNotFound,
        ),
{
}

/// A world after the process has ended and started again: the durable store,
/// the cache and the files are as they were, and the live map is empty.
pub open spec fn restarted(world: World) -> World {
    World { live: Map::empty(), ..world }
}

/// A droplet that was created comes back after a restart: from the
/// definition that the durable store holds under the name, the handle is
/// made again by a cache hit, it is the handle that the `create` had
/// published, and once it is back in the live map a `run` under the name
/// starts what the definition asks for. The definition is not submitted
/// again.
pub proof fn lemma_restart(world: World, tools: Tools, definition: RootConfigView)
    requires
        handle_for(world, tools, definition) is Ok,
    ensures
        ({
            let name = definition.name();
            let (before, _) = created(world, tools, Some(definition));
            let fresh = restarted(before);
            let start = HandleBuildView {
                definition: fresh.records[name],
                stage: BuildStageView::Probing,
            };
            let (after, build) = build_run(fresh, tools, start, 6);
            let handle = DropletHandleView {
                definition: build.definition,
                artifact: build.stage->Built_artifact,
                component: build.stage->Built_component,
            };
            &&& fresh.records.contains_key(name)
            &&& fresh.records[name] == definition
            &&& build.stage is Built
            &&& handle == before.live[name]
            &&& run_started(World { live: after.live.insert(name, handle), ..after }, name)
                == planned_run(definition.runtime(), handle.component)
        }),
{
    lemma_create_outcome(world, tools, Some(definition));
    let (before, _) = created(world, tools, Some(definition));
    let fresh = restarted(before);
    lemma_build_outcome(fresh, tools, definition);
}

/// Nothing is made or published before the definition is in the durable
/// store: a creation that waits for the store leaves that stage only on the
/// store's answer, to make the handle where the definition was written and
/// to fail where it was not.
pub proof fn lemma_persist_comes_first(definition: RootConfigView, event: CreateEventView)
    ensures
        ({
            let start = create_begin(Some(definition));
            let next = create_step(start, event);
            &&& start == (CreateStageView::Persisting { definition })
            &&& match event {
                CreateEventView::Persisted(true) => next == (CreateStageView::Building {
                    build: HandleBuildView { definition, stage: BuildStageView::Probing },
                }),
                CreateEventView::Persisted(false) => next == (CreateStageView::Failed {
                    error: DropletErrorView::StorageError,
                }),
                _ => next == start,
            }
        }),
{
}

/// The compile step is a truthful answer: what `compile` does with the
/// world's engine is what the world answers to a making that waits for the
/// compiler.
pub proof fn lemma_compile_is_truthful(world: World, tools: Tools, build: HandleBuildView)
    requires
        build.stage is Compiling,
    ensures
        build.compile_step(tools.engine) == build.step(build_reply(world, tools, build).1),
{
}

/// The cache is trusted by name: where two worlds hold the same artifact
/// under a droplet's name, the droplet gets the same handle in both, whatever
/// their source files hold and whatever their compilers would make of them.
pub proof fn lemma_cache_hit_ignores_source(
    one: World,
    other: World,
    tools: Tools,
    other_tools: Tools,
    definition: RootConfigView,
)
    requires
        one.cache.contains_key(definition.name()),
        other.cache.contains_key(definition.name()),
        one.cache[definition.name()] == other.cache[definition.name()],
        tools.loader == other_tools.loader,
    ensures
        handle_for(one, tools, definition) == handle_for(other, other_tools, definition),
{
}

/// The name under which the handle of an entry is published.
pub open spec fn name_at(entries: Seq<Result<DropletHandleView, DropletErrorView>>, i: int) -> Seq<
    char,
> {
    entries[i]->Ok_0.definition.name()
}

/// Whether every entry has a handle and no two handles have one name.
pub open spec fn sound_entries(entries: Seq<Result<DropletHandleView, DropletErrorView>>) -> bool {
    &&& forall|i: int| 0 <= i < entries.len() ==> (#[trigger] entries[i]) is Ok
    &&& forall|i: int, j: int|
        0 <= i < j < entries.len() ==> #[trigger] name_at(entries, i) != #[trigger] name_at(
            entries,
            j,
        )
}

/// Whether one of the entries is published under a name.
pub open spec fn named_in(
    entries: Seq<Result<DropletHandleView, DropletErrorView>>,
    name: Seq<char>,
) -> bool {
    exists|i: int| 0 <= i < entries.len() && #[trigger] name_at(entries, i) == name
}

/// Bringing back entries that all have a handle, under names of their own,
/// succeeds: the live map then holds what it held, and under the name of
/// each entry that entry's handle, and nothing else.
pub proof fn lemma_restored_holds_all(
    live: Map<Seq<char>, DropletHandleView>,
    entries: Seq<Result<DropletHandleView, DropletErrorView>>,
)
    requires
        sound_entries(entries),
        forall|i: int| 0 <= i < entries.len() ==> !live.contains_key(#[trigger] name_at(entries, i)),
    ensures
        restored(live, entries) is Ok,
        forall|name: Seq<char>| #[trigger]
            restored(live, entries)->Ok_0.contains_key(name) <==> live.contains_key(name)
                || named_in(entries, name),
        forall|name: Seq<char>|
            live.contains_key(name) ==> #[trigger] restored(live, entries)->Ok_0[name]
                == live[name],
        forall|i: int|
            0 <= i < entries.len() ==> restored(live, entries)->Ok_0[#[trigger] name_at(
                entries,
                i,
            )] == entries[i]->Ok_0,
    decreases entries.len(),
{
    if entries.len() > 0 {
        let first = entries[0]->Ok_0;
        let rest = entries.drop_first();
        let next = live.insert(first.definition.name(), first);
        assert(entries[0] is Ok);
        assert(name_at(entries, 0) == first.definition.name());
        assert forall|i: int| 0 <= i < rest.len() implies (#[trigger] rest[i]) is Ok by {
            assert(rest[i] == entries[i + 1]);
        }
        assert forall|i: int, j: int| 0 <= i < j < rest.len() implies #[trigger] name_at(rest, i)
            != #[trigger] name_at(rest, j) by {
            assert(name_at(rest, i) == name_at(entries, i + 1));
            assert(name_at(rest, j) == name_at(entries, j + 1));
        }
        assert forall|i: int| 0 <= i < rest.len() implies !next.contains_key(
            #[trigger] name_at(rest, i),
        ) by {
            assert(name_at(rest, i) == name_at(entries, i + 1));
            assert(name_at(entries, 0) != name_at(entries, i + 1));
        }
        lemma_restored_holds_all(next, rest);
        let after = restored(live, entries)->Ok_0;
        assert(restored(live, entries) == restored(next, rest));
        assert forall|name: Seq<char>| #[trigger]
            after.contains_key(name) <==> live.contains_key(name) || named_in(
                entries,
                name,
            ) by {
            if named_in(rest, name) {
                let i = choose|i: int| 0 <= i < rest.len() && #[trigger] name_at(rest, i) == name;
                assert(name_at(entries, i + 1) == name);
            }
            if named_in(entries, name) {
                let i = choose|i: int|
                    0 <= i < entries.len() && #[trigger] name_at(entries, i) == name;
                if i > 0 {
                    assert(name_at(rest, i - 1) == name);
                }
            }
        }
        assert forall|i: int| 0 <= i < entries.len() implies after[#[trigger] name_at(entries, i)]
            == entries[i]->Ok_0 by {
            if i > 0 {
                assert(name_at(rest, i - 1) == name_at(entries, i));
                assert(rest[i - 1] == entries[i]);
            }
        }
    }
}

/// The handle of a record made again at the start of a process, and the
/// world after that.
pub open spec fn rebuilt(world: World, tools: Tools, definition: RootConfigView) -> (
    World,
    Result<DropletHandleView, DropletErrorView>,
) {
    let start = HandleBuildView { definition, stage: BuildStageView::Probing };
    let (after, build) = build_run(world, tools, start, 6);
    let entry = match build.stage {
        BuildStageView::Built { artifact, component } => Ok(
            DropletHandleView { definition: build.definition, artifact, component },
        ),
        BuildStageView::Failed { error } => Err(error),
        _ => Err(DropletErrorView::StorageError),
    };
    (after, entry)
}

/// The entries that a start makes of the records of the durable store, one
/// after the other, and the world after that.
pub open spec fn brought_back(world: World, tools: Tools, records: Seq<RootConfigView>) -> (
    World,
    Seq<Result<DropletHandleView, DropletErrorView>>,
)
    decreases records.len(),
{
    if records.len() == 0 {
        (world, Seq::empty())
    } else {
        let (before, entries) = brought_back(world, tools, records.drop_last());
        let (after, entry) = rebuilt(before, tools, records.last());
        (after, entries.push(entry))
    }
}

/// Whether no two records have one name.
pub open spec fn distinct_records(records: Seq<RootConfigView>) -> bool {
    forall|i: int, j: int|
        0 <= i < j < records.len() ==> (#[trigger] records[i]).name() != (
        #[trigger] records[j]).name()
}

/// A start makes of every record the handle that its definition gets:
/// where the records have names of their own and each gets a handle, every
/// entry has that handle. The durable store, the files and the live map of
/// the world are not touched, and the cache changes only under the names of
/// the records.
pub proof fn lemma_brought_back(world: World, tools: Tools, records: Seq<RootConfigView>)
    requires
        distinct_records(records),
        forall|i: int|
            0 <= i < records.len() ==> handle_for(world, tools, #[trigger] records[i]) is Ok,
    ensures
        ({
            let (after, entries) = brought_back(world, tools, records);
            &&& after.records == world.records
            &&& after.files == world.files
            &&& after.live == world.live
            &&& entries.len() == records.len()
            &&& forall|i: int|
                0 <= i < records.len() ==> #[trigger] entries[i] == handle_for(
                    world,
                    tools,
                    records[i],
                )
            &&& forall|name: Seq<char>|
                (forall|i: int| 0 <= i < records.len() ==> (#[trigger] records[i]).name() != name)
                    ==> #[trigger] entry(after.cache, name) == entry(world.cache, name)
        }),
    decreases records.len(),
{
    if records.len() > 0 {
        let front = records.drop_last();
        let last = records.last();
        assert forall|i: int, j: int| 0 <= i < j < front.len() implies (#[trigger] front[i]).name()
            != (#[trigger] front[j]).name() by {
            assert(front[i] == records[i] && front[j] == records[j]);
        }
        assert forall|i: int| 0 <= i < front.len() implies handle_for(
            world,
            tools,
            #[trigger] front[i],
        ) is Ok by {
            assert(front[i] == records[i]);
        }
        lemma_brought_back(world, tools, front);
        let (before, entries) = brought_back(world, tools, front);
        assert forall|i: int| 0 <= i < front.len() implies (#[trigger] front[i]).name()
            != last.name() by {
            assert(front[i] == records[i]);
            assert(records[records.len() - 1] == last);
        }
        assert(entry(before.cache, last.name()) == entry(world.cache, last.name()));
        assert(handle_for(before, tools, last) == handle_for(world, tools, last));
        lemma_build_outcome(before, tools, last);
        let (after, made) = rebuilt(before, tools, last);
        assert(made == handle_for(world, tools, last));
        let all = entries.push(made);
        assert forall|i: int| 0 <= i < records.len() implies #[trigger] all[i] == handle_for(
            world,
            tools,
            records[i],
        ) by {
            if i < front.len() {
                assert(all[i] == entries[i]);
                assert(front[i] == records[i]);
            }
        }
        assert forall|name: Seq<char>|
            (forall|i: int| 0 <= i < records.len() ==> (#[trigger] records[i]).name() != name)
                implies #[trigger] entry(after.cache, name) == entry(world.cache, name) by {
            assert(last.name() != name);
            assert forall|i: int| 0 <= i < front.len() implies (#[trigger] front[i]).name()
                != name by {
                assert(front[i] == records[i]);
            }
            assert(entry(before.cache, name) == entry(world.cache, name));
        }
    }
}

/// Every droplet of the durable store comes back after a restart: where the
/// records have names of their own and each gets a handle, the start
/// succeeds; the live map then holds exactly the names of the records, each
/// with the handle of its own definition, so that a `run` under any of them
/// starts what that definition asks for; and the durable store is as it was.
pub proof fn lemma_restart_all(world: World, tools: Tools, records: Seq<RootConfigView>)
    requires
        distinct_records(records),
        forall|i: int|
            0 <= i < records.len() ==> handle_for(world, tools, #[trigger] records[i]) is Ok,
    ensures
        ({
            let (after, entries) = brought_back(restarted(world), tools, records);
            let started = restored(Map::empty(), entries);
            &&& after.records == world.records
            &&& started is Ok
            &&& forall|name: Seq<char>| #[trigger]
                started->Ok_0.contains_key(name) <==> exists|i: int|
                    0 <= i < records.len() && (#[trigger] records[i]).name() == name
            &&& forall|i: int|
                0 <= i < records.len() ==> {
                    &&& started->Ok_0.contains_key((#[trigger] records[i]).name())
                    &&& started->Ok_0[records[i].name()].definition == records[i]
                    &&& started_run(started->Ok_0, records[i].name()) == planned_run(
                        records[i].runtime(),
                        started->Ok_0[records[i].name()].component,
                    )
                }
        }),
{
    let fresh = restarted(world);
    assert forall|i: int| 0 <= i < records.len() implies handle_for(
        fresh,
        tools,
        #[trigger] records[i],
    ) is Ok by {
        assert(handle_for(fresh, tools, records[i]) == handle_for(world, tools, records[i]));
    }
    lemma_brought_back(fresh, tools, records);
    let (after, entries) = brought_back(fresh, tools, records);
    let none = Map::<Seq<char>, DropletHandleView>::empty();
    assert forall|i: int| 0 <= i < entries.len() implies (#[trigger] entries[i]) is Ok
        && name_at(entries, i) == records[i].name() && entries[i]->Ok_0.definition
        == records[i] by {
        assert(entries[i] == handle_for(fresh, tools, records[i]));
    }
    assert forall|i: int, j: int| 0 <= i < j < entries.len() implies #[trigger] name_at(
        entries,
        i,
    ) != #[trigger] name_at(entries, j) by {
        assert(entries[i] is Ok && entries[j] is Ok);
        assert(records[i].name() != records[j].name());
    }
    lemma_restored_holds_all(none, entries);
    let live = restored(none, entries)->Ok_0;
    assert forall|name: Seq<char>| #[trigger]
        live.contains_key(name) <==> exists|i: int|
            0 <= i < records.len() && (#[trigger] records[i]).name() == name by {
        if named_in(entries, name) {
            let i = choose|i: int| 0 <= i < entries.len() && #[trigger] name_at(entries, i) == name;
            assert(entries[i] is Ok);
            assert(records[i].name() == name);
        }
        if exists|i: int| 0 <= i < records.len() && (#[trigger] records[i]).name() == name {
            let i = choose|i: int| 0 <= i < records.len() && (#[trigger] records[i]).name() == name;
            assert(entries[i] is Ok);
            assert(name_at(entries, i) == name);
        }
    }
    assert forall|i: int| 0 <= i < records.len() implies {
        &&& live.contains_key((#[trigger] records[i]).name())
        &&& live[records[i].name()].definition == records[i]
        &&& started_run(live, records[i].name()) == planned_run(
            records[i].runtime(),
            live[records[i].name()].component,
        )
    } by {
        assert(entries[i] is Ok);
        assert(name_at(entries, i) == records[i].name());
        assert(named_in(entries, records[i].name()));
        assert(live[name_at(entries, i)] == entries[i]->Ok_0);
    }
}

/// One turn of a schedule: an event reported to the run of one index.
pub struct Turn {
    pub run: int,
    pub event: RunEventView,
}

/// A run that is told a list of events, one after the other, and nothing
/// else.
pub open spec fn run_alone(run: InvocationView, events: Seq<RunEventView>) -> InvocationView
    decreases events.len(),
{
    if events.len() == 0 {
        run
    } else {
        run_alone(run, events.drop_last()).step(events.last())
    }
}

/// The events that a schedule reports to the run of one index, in their
/// order.
pub open spec fn events_of(schedule: Seq<Turn>, index: int) -> Seq<RunEventView>
    decreases schedule.len(),
{
    if schedule.len() == 0 {
        Seq::empty()
    } else {
        let before = events_of(schedule.drop_last(), index);
        if schedule.last().run == index {
            before.push(schedule.last().event)
        } else {
            before
        }
    }
}

/// Any number of runs in flight together: the turns of a schedule are taken
/// in their order, and each turn moves the one run that it names. A schedule
/// stands for one way in which the runs' steps fall in time.
pub open spec fn runs_together(runs: Seq<InvocationView>, schedule: Seq<Turn>) -> Seq<
    InvocationView,
>
    decreases schedule.len(),
{
    if schedule.len() == 0 {
        runs
    } else {
        let before = runs_together(runs, schedule.drop_last());
        let turn = schedule.last();
        if 0 <= turn.run < before.len() {
            before.update(turn.run, before[turn.run].step(turn.event))
        } else {
            before
        }
    }
}

/// The events of a run that goes to its end without a fault and writes
/// `output`.
pub open spec fn faultless(output: Seq<u8>) -> Seq<RunEventView> {
    seq![
        RunEventView::Instantiated(true),
        RunEventView::EntryLocated(true),
        RunEventView::Completed(None),
        RunEventView::Output(Some(output)),
    ]
}

/// Runs in flight together do not touch each other: however their steps
/// fall in time, each run ends where it would have ended had it been told
/// its own events alone.
pub proof fn lemma_runs_do_not_interfere(
    runs: Seq<InvocationView>,
    schedule: Seq<Turn>,
    index: int,
)
    requires
        0 <= index < runs.len(),
    ensures
        runs_together(runs, schedule).len() == runs.len(),
        runs_together(runs, schedule)[index] == run_alone(runs[index], events_of(schedule, index)),
    decreases schedule.len(),
{
    if schedule.len() > 0 {
        lemma_runs_do_not_interfere(runs, schedule.drop_last(), index);
        let turn = schedule.last();
        if turn.run == index {
            let own = events_of(schedule.drop_last(), index);
            assert(own.push(turn.event).drop_last() =~= own);
            assert(own.push(turn.event).last() == turn.event);
        }
    }
}

/// A run told the events of a faultless run alone is that faultless run.
pub proof fn lemma_faultless_alone(run: InvocationView, output: Seq<u8>)
    ensures
        run_alone(run, faultless(output)) == completed_run(run, output),
{
    let four = faultless(output);
    let three = four.drop_last();
    let two = three.drop_last();
    let one = two.drop_last();
    assert(one.drop_last().len() == 0);
    assert(run_alone(run, one.drop_last()) == run);
    assert(run_alone(run, one) == run.step(RunEventView::Instantiated(true)));
    assert(run_alone(run, two) == run_alone(run, one).step(RunEventView::EntryLocated(true)));
    assert(run_alone(run, three) == run_alone(run, two).step(RunEventView::Completed(None)));
    assert(run_alone(run, four) == run_alone(run, three).step(
        RunEventView::Output(Some(output)),
    ));
}

/// Any number of runs of one droplet, in flight together, all end well and
/// each with its own output: where the runs were started under one name and
/// each goes to its end without a fault, then however their steps fall in
/// time, run `i` returns exactly the bytes that it wrote, decoded, with
/// nothing of another run's output in it.
pub proof fn lemma_concurrent_runs(
    live: Map<Seq<char>, DropletHandleView>,
    name: Seq<char>,
    runs: Seq<InvocationView>,
    schedule: Seq<Turn>,
    outputs: Seq<Seq<u8>>,
)
    requires
        outputs.len() == runs.len(),
        forall|i: int|
            0 <= i < runs.len() ==> started_run(live, name) == Ok::<
                InvocationView,
                DropletErrorView,
            >(#[trigger] runs[i]),
        forall|i: int|
            0 <= i < runs.len() ==> #[trigger] events_of(schedule, i) == faultless(outputs[i]),
        forall|i: int| 0 <= i < runs.len() ==> valid_utf8(#[trigger] outputs[i]),
    ensures
        runs_together(runs, schedule).len() == runs.len(),
        forall|i: int|
            0 <= i < runs.len() ==> (#[trigger] runs_together(runs, schedule)[i]).stage == (
            RunStageView::Done { stdout: decode_utf8(outputs[i]) }),
{
    let ended = runs_together(runs, schedule);
    lemma_runs_keep_their_number(runs, schedule);
    assert forall|i: int| 0 <= i < runs.len() implies (#[trigger] ended[i]).stage == (
    RunStageView::Done { stdout: decode_utf8(outputs[i]) }) by {
        lemma_runs_do_not_interfere(runs, schedule, i);
        assert(events_of(schedule, i) == faultless(outputs[i]));
        lemma_faultless_alone(runs[i], outputs[i]);
        assert(valid_utf8(outputs[i]));
        assert(started_run(live, name) == Ok::<InvocationView, DropletErrorView>(runs[i]));
    }
}

/// A schedule neither adds a run nor takes one away.
pub proof fn lemma_runs_keep_their_number(runs: Seq<InvocationView>, schedule: Seq<Turn>)
    ensures
        runs_together(runs, schedule).len() == runs.len(),
    decreases schedule.len(),
{
    if schedule.len() > 0 {
        lemma_runs_keep_their_number(runs, schedule.drop_last());
    }
}

/// A creation that has not been given a definition never asks for anything:
/// it has failed from the start, and whatever is reported to it, it stays
/// failed with the parse error. So no record is written and no handle
/// published for it.
pub proof fn lemma_malformed_is_inert(event: CreateEventView)
    ensures
        create_begin(None) == (CreateStageView::Failed {
            error: DropletErrorView::ConfigParseError,
        }),
        create_step(create_begin(None), event) == create_begin(None),
{
}

} // verus!
