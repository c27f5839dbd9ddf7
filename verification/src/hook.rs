//! The vocabulary shared by every table of the driver: plugin identities,
//! hook kinds and the order preference a plugin may declare for a hook.

use vstd::prelude::*;

verus! {

/// The identity of a registered plugin: its zero-based position in
/// registration order.
#[derive(Clone, Copy, Debug, PartialEq, Eq, Structural, Hash)]
pub struct PluginIdx(pub usize);

impl PluginIdx {
    /// The identity of the plugin registered at position `index`.
    pub fn from_usize(index: usize) -> (idx: PluginIdx)
        ensures
            idx == PluginIdx(index),
    {
        PluginIdx(index)
    }

    /// The position in registration order that this identity stands for.
    pub fn index(self) -> (index: usize)
        ensures
            index == self.0,
    {
        self.0
    }
}

/// A plugin's wish to run before or after the default cohort of a hook.
#[derive(Clone, Copy, Debug, PartialEq, Eq, Structural, Hash)]
pub enum PluginOrder {
    /// Run ahead of the plugins that declared nothing.
    Pre,
    /// Run behind the plugins that declared nothing.
    Post,
}

/// What a plugin declares about one of its hooks.
#[derive(Clone, Copy, Debug, PartialEq, Eq, Structural, Hash)]
pub struct PluginHookMeta {
    pub order: Option<PluginOrder>,
}

/// The extension points of the build pipeline.
#[derive(Clone, Copy, Debug, PartialEq, Eq, Structural, Hash)]
pub enum HookKind {
    BuildStart,
    ResolveId,
    ResolveDynamicImport,
    Load,
    Transform,
    ModuleParsed,
    BuildEnd,
    RenderStart,
    Banner,
    Footer,
    Intro,
    Outro,
    RenderChunk,
    AugmentChunkHash,
    RenderError,
    GenerateBundle,
    WriteBundle,
    CloseBundle,
    WatchChange,
    CloseWatcher,
    TransformAst,
}

/// The three cohorts a hook's plugins are split into, in running order.
#[derive(Clone, Copy, Debug, PartialEq, Eq, Structural, Hash)]
pub enum Bucket {
    Eager,
    Normal,
    Deferred,
}

impl Bucket {
    /// The place of the cohort in the running order.
    pub open spec fn rank(self) -> int {
        match self {
            Bucket::Eager => 0,
            Bucket::Normal => 1,
            Bucket::Deferred => 2,
        }
    }
}

/// The cohort that a declaration puts a plugin in. No declaration, and a
/// declaration without an order, both mean the normal cohort.
pub open spec fn bucket_of(meta: Option<PluginHookMeta>) -> Bucket {
    match meta {
        Some(PluginHookMeta { order: Some(PluginOrder::Pre) }) => Bucket::Eager,
        Some(PluginHookMeta { order: Some(PluginOrder::Post) }) => Bucket::Deferred,
        _ => Bucket::Normal,
    }
}

/// The cohort that a declaration puts a plugin in.
pub fn classify(meta: Option<PluginHookMeta>) -> (bucket: Bucket)
    ensures
        bucket == bucket_of(meta),
{
    match meta {
        Some(meta) => match meta.order {
            Some(PluginOrder::Pre) => Bucket::Eager,
            Some(PluginOrder::Post) => Bucket::Deferred,
            None => Bucket::Normal,
        },
        None => Bucket::Normal,
    }
}

} // verus!
