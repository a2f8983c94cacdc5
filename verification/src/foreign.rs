//! The types and functions of other crates that the library builds on.
//!
//! Nothing in this file is proved: each contract here is a claim about code
//! that lives elsewhere, and each doc comment says which.

use crate::droplet::{DropletHandle, DropletHandleView};
use std::sync::Arc;
use vstd::prelude::*;

verus! {

#[verifier::external_type_specification]
#[verifier::external_body]
pub struct ExAnyhowError(anyhow::Error);

#[verifier::external_type_specification]
#[verifier::external_body]
pub struct ExEngine(wasmtime::Engine);

#[verifier::external_type_specification]
#[verifier::external_body]
pub struct ExComponent(wasmtime::component::Component);

#[verifier::external_type_specification]
#[verifier::external_body]
#[verifier::reject_recursive_types(K)]
#[verifier::reject_recursive_types(V)]
#[verifier::reject_recursive_types(S)]
pub struct ExDashMap<K, V, S>(dashmap::DashMap<K, V, S>);

#[verifier::external_type_specification]
#[verifier::external_body]
pub struct ExPathBuf(std::path::PathBuf);

/// `Clone` for `std::path::PathBuf`: the copy is the same path.
pub assume_specification[ <std::path::PathBuf as Clone>::clone ](path: &std::path::PathBuf) -> (copy:
    std::path::PathBuf)
    ensures
        copy == *path,
;

/// The path of `part` below `base`, as `std::path::Path::join` puts the two
/// together. How it does so is the platform's business and is not written
/// out here.
pub uninterp spec fn path_below(base: std::path::PathBuf, part: Seq<char>) -> std::path::PathBuf;

/// `std::path::Path::join`: the path of `part` below `base`. The contract
/// claims that the result rests on the two arguments alone: the call reads
/// neither the disk nor the working directory.
#[verifier::external_body]
pub(crate) fn join_path(base: &std::path::PathBuf, part: &str) -> (joined: std::path::PathBuf)
    ensures
        joined == path_below(*base, part@),
{
    base.join(part)
}

/// `wasmtime::DEFAULT_INSTANCE_LIMIT`: the number of instances that the engine
/// allows a store when nothing else is configured. The contract states the
/// constant's value, 10000.
#[verifier::external_body]
pub(crate) fn default_instance_limit() -> (limit: usize)
    ensures
        limit == 10000,
{
    wasmtime::DEFAULT_INSTANCE_LIMIT
}

/// `wasmtime::DEFAULT_TABLE_LIMIT`: the number of tables that the engine
/// allows a store when nothing else is configured. The contract states the
/// constant's value, 10000.
#[verifier::external_body]
pub(crate) fn default_table_limit() -> (limit: usize)
    ensures
        limit == 10000,
{
    wasmtime::DEFAULT_TABLE_LIMIT
}

/// `wasmtime::DEFAULT_MEMORY_LIMIT`: the number of linear memories that the
/// engine allows a store when nothing else is configured. The contract states
/// the constant's value, 10000.
#[verifier::external_body]
pub(crate) fn default_memory_limit() -> (limit: usize)
    ensures
        limit == 10000,
{
    wasmtime::DEFAULT_MEMORY_LIMIT
}

/// `anyhow::Error::msg`: makes an error of a message. Nothing is claimed of
/// the error but that it exists: it takes a backtrace where the process is
/// set to take one, so it does not rest on the message alone.
#[verifier::external_body]
pub(crate) fn error_from_message(message: String) -> anyhow::Error {
    anyhow::Error::msg(message)
}

/// An error wrapped in a line of context: the error that
/// `anyhow::Error::context` makes of the two. It shows the context and has
/// the wrapped error as its cause.
pub uninterp spec fn in_context(error: anyhow::Error, context: Seq<char>) -> anyhow::Error;

/// `anyhow::Error::context`: wraps an error in a line of context. The
/// contract claims that the result rests on the error and the context alone:
/// the call keeps the error as the cause and takes no backtrace of its own.
#[verifier::external_body]
pub(crate) fn error_with_context(error: anyhow::Error, context: &'static str) -> (wrapped:
    anyhow::Error)
    ensures
        wrapped == in_context(error, context@),
{
    error.context(context)
}

/// `Clone` for `wasmtime::component::Component`: the copy shares the loaded
/// code with the component it was made from and stands for the same one.
pub assume_specification[ <wasmtime::component::Component as Clone>::clone ](
    component: &wasmtime::component::Component,
) -> (copy: wasmtime::component::Component)
    ensures
        copy == *component,
;

/// What the compiler of an engine makes of source bytes: the artifact, or
/// `None` where it refuses them. Which artifact that is, is the compiler's
/// business and is not written out here.
pub uninterp spec fn compiled(engine: wasmtime::Engine, source: Seq<u8>) -> Option<Seq<u8>>;

/// `wasmtime::Engine::precompile_component`: compiles the bytes of a component
/// into an artifact for this engine, or says why it cannot. The contract
/// claims that the answer rests on the engine and the bytes alone: the engine
/// carries its settings and the target it compiles for, and this way into the
/// compiler never goes through the compilation cache. Why the compiler
/// refused is not part of the claim.
#[verifier::external_body]
pub(crate) fn precompile_component(engine: &wasmtime::Engine, source: &[u8]) -> (answer: Result<
    Vec<u8>,
    anyhow::Error,
>)
    ensures
        match answer {
            Ok(artifact) => compiled(*engine, source@) == Some(artifact@),
            Err(_) => compiled(*engine, source@) is None,
        },
{
    engine.precompile_component(source)
}

/// `String::from_utf8`: turns bytes into a text where they are valid UTF-8,
/// and fails where they are not. The text is the one that the bytes encode.
#[verifier::external_body]
pub(crate) fn text_from_utf8(bytes: Vec<u8>) -> (text: Option<String>)
    ensures
        text is Some <==> vstd::utf8::valid_utf8(bytes@),
        text matches Some(t) ==> t@ == vstd::utf8::decode_utf8(bytes@),
{
    String::from_utf8(bytes).ok()
}

/// What a live map holds: for each name the droplet published under it.
pub uninterp spec fn live_entries(map: dashmap::DashMap<String, Arc<DropletHandle>>) -> Map<
    Seq<char>,
    DropletHandleView,
>;

/// A live map's content when it holds nothing.
pub open spec fn no_entries() -> Map<Seq<char>, DropletHandleView> {
    Map::empty()
}

/// `dashmap::DashMap::new`: a map that holds nothing.
#[verifier::external_body]
pub(crate) fn live_map_new() -> (created: dashmap::DashMap<String, Arc<DropletHandle>>)
    ensures
        live_entries(created) == no_entries(),
{
    dashmap::DashMap::new()
}

/// `dashmap::DashMap::insert`: puts a droplet under a name and drops what was
/// there before. The map is borrowed for this alone, so nothing else changes
/// it meanwhile, and no guard into the map is held that the call could wait
/// for; it returns without a panic.
#[verifier::external_body]
pub(crate) fn live_map_insert(
    map: &mut dashmap::DashMap<String, Arc<DropletHandle>>,
    name: String,
    handle: Arc<DropletHandle>,
)
    ensures
        live_entries(*final(map)) == live_entries(*old(map)).insert(name@, handle@),
    no_unwind
{
    map.insert(name, handle);
}

/// `dashmap::DashMap::get`: the droplet under a name, where there is one. The
/// guard that the map hands out is given up at once; what is returned shares
/// the droplet with the map.
#[verifier::external_body]
pub(crate) fn live_map_get(map: &dashmap::DashMap<String, Arc<DropletHandle>>, name: &str) -> (found:
    Option<Arc<DropletHandle>>)
    ensures
        found is Some <==> live_entries(*map).contains_key(name@),
        found matches Some(handle) ==> handle@ == live_entries(*map)[name@],
{
    map.get(name).map(|entry| Arc::clone(entry.value()))
}

} // verus!
