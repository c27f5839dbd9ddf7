//! The hook order table: for every hook kind, the order in which the
//! registered plugins are to be run.
//!
//! The order of a hook is a stable partition of the plugins by the cohort
//! that each one declares for that hook: the eager plugins, then the normal
//! ones, then the deferred ones, each cohort in registration order.

use std::sync::Arc;
use vstd::prelude::*;
use crate::hook::{bucket_of, classify, Bucket, HookKind, PluginHookMeta, PluginIdx};
use crate::plugin::Pluginable;

verus! {

/// What the plugins declare for `kind`, in registration order.
pub open spec fn declarations<P: Pluginable + ?Sized>(plugins: Seq<Arc<P>>, kind: HookKind) -> Seq<
    Option<PluginHookMeta>,
> {
    Seq::new(plugins.len(), |i: int| plugins[i].declared(kind))
}

/// The plugins among the first `upto` that `prefs` puts in `bucket`, in
/// registration order.
pub open spec fn bucket_members(
    prefs: Seq<Option<PluginHookMeta>>,
    bucket: Bucket,
    upto: int,
) -> Seq<PluginIdx>
    decreases upto,
{
    if upto <= 0 {
        Seq::empty()
    } else {
        let earlier = bucket_members(prefs, bucket, upto - 1);
        if bucket_of(prefs[upto - 1]) == bucket {
            earlier.push(PluginIdx((upto - 1) as usize))
        } else {
            earlier
        }
    }
}

/// The running order that the declarations `prefs` give: eager, normal,
/// deferred, each in registration order.
pub open spec fn three_bucket_order(prefs: Seq<Option<PluginHookMeta>>) -> Seq<PluginIdx> {
    bucket_members(prefs, Bucket::Eager, prefs.len() as int) + bucket_members(
        prefs,
        Bucket::Normal,
        prefs.len() as int,
    ) + bucket_members(prefs, Bucket::Deferred, prefs.len() as int)
}

/// What is left of the first `upto` places of `order` when the plugins named
/// in `skipped` are passed over: the others, in the order they had.
pub open spec fn order_without(order: Seq<PluginIdx>, skipped: Seq<PluginIdx>, upto: int) -> Seq<
    PluginIdx,
>
    decreases upto,
{
    if upto <= 0 {
        Seq::empty()
    } else {
        let earlier = order_without(order, skipped, upto - 1);
        if skipped.contains(order[upto - 1]) {
            earlier
        } else {
            earlier.push(order[upto - 1])
        }
    }
}

/// One running order per hook kind.
#[derive(Clone, Debug)]
pub struct HookOrderIndicates {
    pub order_by_build_start_meta: Vec<PluginIdx>,
    pub order_by_resolve_id_meta: Vec<PluginIdx>,
    pub order_by_resolve_dynamic_import_meta: Vec<PluginIdx>,
    pub order_by_load_meta: Vec<PluginIdx>,
    pub order_by_transform_meta: Vec<PluginIdx>,
    pub order_by_module_parsed_meta: Vec<PluginIdx>,
    pub order_by_build_end_meta: Vec<PluginIdx>,
    pub order_by_render_start_meta: Vec<PluginIdx>,
    pub order_by_banner_meta: Vec<PluginIdx>,
    pub order_by_footer_meta: Vec<PluginIdx>,
    pub order_by_intro_meta: Vec<PluginIdx>,
    pub order_by_outro_meta: Vec<PluginIdx>,
    pub order_by_render_chunk_meta: Vec<PluginIdx>,
    pub order_by_augment_chunk_hash_meta: Vec<PluginIdx>,
    pub order_by_render_error_meta: Vec<PluginIdx>,
    pub order_by_generate_bundle_meta: Vec<PluginIdx>,
    pub order_by_write_bundle_meta: Vec<PluginIdx>,
    pub order_by_close_bundle_meta: Vec<PluginIdx>,
    pub order_by_watch_change_meta: Vec<PluginIdx>,
    pub order_by_close_watcher_meta: Vec<PluginIdx>,
    pub order_by_transform_ast_meta: Vec<PluginIdx>,
}

impl HookOrderIndicates {
    /// The running order that the table holds for `kind`.
    pub open spec fn order_of(&self, kind: HookKind) -> Seq<PluginIdx> {
        match kind {
            HookKind::BuildStart => self.order_by_build_start_meta@,
            HookKind::ResolveId => self.order_by_resolve_id_meta@,
            HookKind::ResolveDynamicImport => self.order_by_resolve_dynamic_import_meta@,
            HookKind::Load => self.order_by_load_meta@,
            HookKind::Transform => self.order_by_transform_meta@,
            HookKind::ModuleParsed => self.order_by_module_parsed_meta@,
            HookKind::BuildEnd => self.order_by_build_end_meta@,
            HookKind::RenderStart => self.order_by_render_start_meta@,
            HookKind::Banner => self.order_by_banner_meta@,
            HookKind::Footer => self.order_by_footer_meta@,
            HookKind::Intro => self.order_by_intro_meta@,
            HookKind::Outro => self.order_by_outro_meta@,
            HookKind::RenderChunk => self.order_by_render_chunk_meta@,
            HookKind::AugmentChunkHash => self.order_by_augment_chunk_hash_meta@,
            HookKind::RenderError => self.order_by_render_error_meta@,
            HookKind::GenerateBundle => self.order_by_generate_bundle_meta@,
            HookKind::WriteBundle => self.order_by_write_bundle_meta@,
            HookKind::CloseBundle => self.order_by_close_bundle_meta@,
            HookKind::WatchChange => self.order_by_watch_change_meta@,
            HookKind::CloseWatcher => self.order_by_close_watcher_meta@,
            HookKind::TransformAst => self.order_by_transform_ast_meta@,
        }
    }

    /// Whether the table is the one that `plugins` give rise to: the order
    /// of every hook kind is the three-bucket order of what the plugins
    /// declare for that kind.
    pub open spec fn is_table_of<P: Pluginable + ?Sized>(&self, plugins: Seq<Arc<P>>) -> bool {
        forall|kind: HookKind| #[trigger]
            self.order_of(kind) == three_bucket_order(declarations(plugins, kind))
    }

    /// Computes the order of every hook kind over the whole registry, from
    /// what each plugin declares for that kind when asked.
    pub fn new<P: Pluginable + ?Sized>(index_plugins: &Vec<Arc<P>>) -> (orders: Self)
        ensures
            orders.is_table_of(index_plugins@),
    {
        Self {
            order_by_build_start_meta: Self::sort_plugins_by_hook_meta(
                index_plugins,
                HookKind::BuildStart,
            ),
            order_by_resolve_id_meta: Self::sort_plugins_by_hook_meta(
                index_plugins,
                HookKind::ResolveId,
            ),
            order_by_resolve_dynamic_import_meta: Self::sort_plugins_by_hook_meta(
                index_plugins,
                HookKind::ResolveDynamicImport,
            ),
            order_by_load_meta: Self::sort_plugins_by_hook_meta(index_plugins, HookKind::Load),
            order_by_transform_meta: Self::sort_plugins_by_hook_meta(
                index_plugins,
                HookKind::Transform,
            ),
            order_by_module_parsed_meta: Self::sort_plugins_by_hook_meta(
                index_plugins,
                HookKind::ModuleParsed,
            ),
            order_by_build_end_meta: Self::sort_plugins_by_hook_meta(
                index_plugins,
                HookKind::BuildEnd,
            ),
            order_by_render_start_meta: Self::sort_plugins_by_hook_meta(
                index_plugins,
                HookKind::RenderStart,
            ),
            order_by_banner_meta: Self::sort_plugins_by_hook_meta(index_plugins, HookKind::Banner),
            order_by_footer_meta: Self::sort_plugins_by_hook_meta(index_plugins, HookKind::Footer),
            order_by_intro_meta: Self::sort_plugins_by_hook_meta(index_plugins, HookKind::Intro),
            order_by_outro_meta: Self::sort_plugins_by_hook_meta(index_plugins, HookKind::Outro),
            order_by_render_chunk_meta: Self::sort_plugins_by_hook_meta(
                index_plugins,
                HookKind::RenderChunk,
            ),
            order_by_augment_chunk_hash_meta: Self::sort_plugins_by_hook_meta(
                index_plugins,
                HookKind::AugmentChunkHash,
            ),
            order_by_render_error_meta: Self::sort_plugins_by_hook_meta(
                index_plugins,
                HookKind::RenderError,
            ),
            order_by_generate_bundle_meta: Self::sort_plugins_by_hook_meta(
                index_plugins,
                HookKind::GenerateBundle,
            ),
            order_by_write_bundle_meta: Self::sort_plugins_by_hook_meta(
                index_plugins,
                HookKind::WriteBundle,
            ),
            order_by_close_bundle_meta: Self::sort_plugins_by_hook_meta(
                index_plugins,
                HookKind::CloseBundle,
            ),
            order_by_watch_change_meta: Self::sort_plugins_by_hook_meta(
                index_plugins,
                HookKind::WatchChange,
            ),
            order_by_close_watcher_meta: Self::sort_plugins_by_hook_meta(
                index_plugins,
                HookKind::CloseWatcher,
            ),
            order_by_transform_ast_meta: Self::sort_plugins_by_hook_meta(
                index_plugins,
                HookKind::TransformAst,
            ),
        }
    }

    /// The running order of `kind`: asks every plugin, in registration
    /// order, what it declares for `kind`, and orders the registry by the
    /// answers.
    pub fn sort_plugins_by_hook_meta<P: Pluginable + ?Sized>(
        index_plugins: &Vec<Arc<P>>,
        kind: HookKind,
    ) -> (order: Vec<PluginIdx>)
        ensures
            order@ == three_bucket_order(declarations(index_plugins@, kind)),
    {
        let mut metas: Vec<Option<PluginHookMeta>> = Vec::new();
        let mut i: usize = 0;
        while i < index_plugins.len()
            invariant
                i <= index_plugins.len(),
                metas@.len() == i,
                forall|j: int| 0 <= j < i ==> metas@[j] == index_plugins@[j].declared(kind),
            decreases index_plugins.len() - i,
        {
            metas.push(index_plugins[i].call_hook_meta(kind));
            i += 1;
        }
        assert(metas@ =~= declarations(index_plugins@, kind));
        Self::order_from_metas(&metas)
    }

    /// The running order that the declarations `metas` give, the plugin at
    /// position `i` having declared `metas[i]`: a stable partition into the
    /// eager, the normal and the deferred plugins.
    pub fn order_from_metas(metas: &Vec<Option<PluginHookMeta>>) -> (order: Vec<PluginIdx>)
        ensures
            order@ == three_bucket_order(metas@),
    {
        let mut pre_plugins: Vec<PluginIdx> = Vec::new();
        let mut normal_plugins: Vec<PluginIdx> = Vec::new();
        let mut post_plugins: Vec<PluginIdx> = Vec::new();

        let mut i: usize = 0;
        while i < metas.len()
            invariant
                i <= metas.len(),
                pre_plugins@ == bucket_members(metas@, Bucket::Eager, i as int),
                normal_plugins@ == bucket_members(metas@, Bucket::Normal, i as int),
                post_plugins@ == bucket_members(metas@, Bucket::Deferred, i as int),
            decreases metas.len() - i,
        {
            match classify(metas[i]) {
                Bucket::Eager => pre_plugins.push(PluginIdx::from_usize(i)),
                Bucket::Normal => normal_plugins.push(PluginIdx::from_usize(i)),
                Bucket::Deferred => post_plugins.push(PluginIdx::from_usize(i)),
            }
            i += 1;
        }
        pre_plugins.append(&mut normal_plugins);
        pre_plugins.append(&mut post_plugins);
        pre_plugins
    }

    /// The running order of `kind` without the plugins named in `skipped`:
    /// the order in which to consult the others while those are passed over.
    pub fn get_order_skipping(&self, kind: HookKind, skipped: &Vec<PluginIdx>) -> (order: Vec<
        PluginIdx,
    >)
        ensures
            order@ == order_without(
                self.order_of(kind),
                skipped@,
                self.order_of(kind).len() as int,
            ),
    {
        let whole = self.get_order(kind);
        let mut order: Vec<PluginIdx> = Vec::new();
        let mut k: usize = 0;
        while k < whole.len()
            invariant
                k <= whole@.len(),
                order@ == order_without(whole@, skipped@, k as int),
            decreases whole.len() - k,
        {
            if !names(skipped, whole[k]) {
                order.push(whole[k]);
            }
            k += 1;
        }
        order
    }

    /// The running order of `kind`.
    pub fn get_order(&self, kind: HookKind) -> (order: &Vec<PluginIdx>)
        ensures
            order@ == self.order_of(kind),
    {
        match kind {
            HookKind::BuildStart => &self.order_by_build_start_meta,
            HookKind::ResolveId => &self.order_by_resolve_id_meta,
            HookKind::ResolveDynamicImport => &self.order_by_resolve_dynamic_import_meta,
            HookKind::Load => &self.order_by_load_meta,
            HookKind::Transform => &self.order_by_transform_meta,
            HookKind::ModuleParsed => &self.order_by_module_parsed_meta,
            HookKind::BuildEnd => &self.order_by_build_end_meta,
            HookKind::RenderStart => &self.order_by_render_start_meta,
            HookKind::Banner => &self.order_by_banner_meta,
            HookKind::Footer => &self.order_by_footer_meta,
            HookKind::Intro => &self.order_by_intro_meta,
            HookKind::Outro => &self.order_by_outro_meta,
            HookKind::RenderChunk => &self.order_by_render_chunk_meta,
            HookKind::AugmentChunkHash => &self.order_by_augment_chunk_hash_meta,
            HookKind::RenderError => &self.order_by_render_error_meta,
            HookKind::GenerateBundle => &self.order_by_generate_bundle_meta,
            HookKind::WriteBundle => &self.order_by_write_bundle_meta,
            HookKind::CloseBundle => &self.order_by_close_bundle_meta,
            HookKind::WatchChange => &self.order_by_watch_change_meta,
            HookKind::CloseWatcher => &self.order_by_close_watcher_meta,
            HookKind::TransformAst => &self.order_by_transform_ast_meta,
        }
    }
}

/// Whether `list` names `idx`.
pub fn names(list: &Vec<PluginIdx>, idx: PluginIdx) -> (found: bool)
    ensures
        found == list@.contains(idx),
{
    let mut k: usize = 0;
    while k < list.len()
        invariant
            k <= list@.len(),
            forall|j: int| 0 <= j < k ==> list@[j] != idx,
        decreases list.len() - k,
    {
        if list[k] == idx {
            return true;
        }
        k += 1;
    }
    false
}

} // verus!
