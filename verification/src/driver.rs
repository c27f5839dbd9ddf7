//! The driver: the registry of plugins, the tables computed from it at
//! setup, and one context per plugin.
//!
//! The registry, the order table and the filter table never change once the
//! driver stands. The watched files and the module table cell are the state
//! of one build pass: a rebuild keeps the tables and starts both afresh.

use std::sync::Arc;
use vstd::prelude::*;
use crate::context::{HookResolveIdSkipped, PluginContext};
use crate::filter::{filters_from_answers, DriverError, HookFilterOptions};
use crate::hook::{HookKind, PluginIdx};
use crate::order::{order_without, HookOrderIndicates};
use crate::order_laws::{lemma_order_without, lemma_table_orders_are_permutations};
use crate::plugin::Pluginable;
use crate::shared::{cell_store, new_cell, new_watch_set, SharedModuleTable, SharedWatchFiles};

verus! {

/// The plugins of a build, the order to run them in for every hook, and what
/// each of them runs with.
///
/// `P` is the plugin, `R`, `E`, `O` and `M` are the resolver, the file
/// emitter, the bundler's options and the module table.
#[verifier::reject_recursive_types(M)]
pub struct PluginDriver<P: Pluginable + ?Sized, R, E, O, M> {
    plugins: Vec<Arc<P>>,
    contexts: Vec<PluginContext<R, E, O, M>>,
    order_indicates: Arc<HookOrderIndicates>,
    index_plugin_filters: Arc<Vec<HookFilterOptions>>,
    resolver: Arc<R>,
    file_emitter: Arc<E>,
    options: Arc<O>,
    module_table: SharedModuleTable<M>,
    watch_files: SharedWatchFiles,
}

/// The row of the filter table that the plugin registered as `plugin_idx`
/// gives rise to, or the error that it gives rise to: the row holds the
/// plugin's three filters where it can say all three.
pub open spec fn filters_of<P: Pluginable + ?Sized>(plugin_idx: PluginIdx, plugin: Arc<P>) -> Result<
    HookFilterOptions,
    DriverError,
> {
    filters_from_answers(
        plugin_idx,
        plugin.load_filter(),
        plugin.resolve_id_filter(),
        plugin.transform_filter(),
    )
}

/// Whether the plugin can say what each of its three filters is.
pub open spec fn says_its_filters<P: Pluginable + ?Sized>(plugin: Arc<P>) -> bool {
    plugin.load_filter() is Ok && plugin.resolve_id_filter() is Ok && plugin.transform_filter() is Ok
}

/// A driver that many invocations share.
pub type SharedPluginDriver<P, R, E, O, M> = Arc<PluginDriver<P, R, E, O, M>>;

/// One step of a hook's run: the plugin, its implementation and its context.
pub type PluginWithContext<'a, P, R, E, O, M> = (
    PluginIdx,
    &'a Arc<P>,
    &'a PluginContext<R, E, O, M>,
);

impl<P: Pluginable + ?Sized, R, E, O, M> PluginDriver<P, R, E, O, M> {
    /// The registered plugins, in registration order.
    pub closed spec fn registry(&self) -> Seq<Arc<P>> {
        self.plugins@
    }

    /// The contexts, the one of the plugin `i` at position `i`.
    pub closed spec fn context_table(&self) -> Seq<PluginContext<R, E, O, M>> {
        self.contexts@
    }

    /// The filters, those of the plugin `i` at position `i`.
    pub closed spec fn filter_table(&self) -> Seq<HookFilterOptions> {
        self.index_plugin_filters@
    }

    /// The order table.
    pub closed spec fn order_table(&self) -> HookOrderIndicates {
        *self.order_indicates
    }

    /// The resolver, the file emitter and the options that the driver was
    /// set up with.
    pub closed spec fn services(&self) -> (Arc<R>, Arc<E>, Arc<O>) {
        (self.resolver, self.file_emitter, self.options)
    }

    /// The cell that holds the module table of this build pass.
    pub closed spec fn module_table_cell(&self) -> SharedModuleTable<M> {
        self.module_table
    }

    /// The watched files of this build pass.
    pub closed spec fn watch_set(&self) -> SharedWatchFiles {
        self.watch_files
    }

    /// Whether `context` is the context that the plugin `idx` starts with in
    /// this driver: it names the plugin, its skip stack is empty, and it
    /// holds the driver's services, its module table cell and its watched
    /// files, not copies of its own.
    pub open spec fn is_context_of(&self, context: PluginContext<R, E, O, M>, idx: int) -> bool {
        &&& context.plugin_idx == PluginIdx(idx as usize)
        &&& context.skipped_resolve_calls@ == Seq::<HookResolveIdSkipped>::empty()
        &&& (context.resolver, context.file_emitter, context.options) == self.services()
        &&& context.module_table == self.module_table_cell()
        &&& context.watch_files == self.watch_set()
    }

    /// The driver's tables are those of its registry. There is one context
    /// and one row of filters for every registered plugin, at the plugin's
    /// position; the row holds the plugin's three filters as the plugin gives
    /// them; and the order of every hook is the three-bucket order of what
    /// the registered plugins declare for that hook.
    pub open spec fn wf(&self) -> bool {
        &&& self.context_table().len() == self.registry().len()
        &&& self.filter_table().len() == self.registry().len()
        &&& self.order_table().is_table_of(self.registry())
        &&& forall|i: int|
            0 <= i < self.filter_table().len() ==> Ok::<HookFilterOptions, DriverError>(
                #[trigger] self.filter_table()[i],
            ) == filters_of(PluginIdx(i as usize), self.registry()[i])
        &&& forall|i: int|
            0 <= i < self.context_table().len() ==> self.is_context_of(
                #[trigger] self.context_table()[i],
                i,
            )
    }

    /// Every driver is well formed: there is no way to make one but by
    /// `new_shared` and `new_shared_from_self`, and nothing changes its
    /// tables afterwards.
    #[verifier::type_invariant]
    spec fn tables_fit(&self) -> bool {
        self.wf()
    }

    /// Whether `idx` names a registered plugin.
    pub open spec fn registered(&self, idx: PluginIdx) -> bool {
        idx.0 < self.registry().len()
    }
}

impl<P: Pluginable + ?Sized, R, E, O, M> PluginDriver<P, R, E, O, M> {
    /// Sets up the driver of `plugins`, which are registered in the order
    /// given. Each plugin is asked for its three filters; where one fails to
    /// answer there is no driver, and the error names the plugin. The order
    /// table is computed over the whole registry. The driver starts with no
    /// watched file and no module table.
    pub fn new_shared(
        plugins: Vec<Arc<P>>,
        resolver: &Arc<R>,
        file_emitter: &Arc<E>,
        options: &Arc<O>,
    ) -> (driver: Result<SharedPluginDriver<P, R, E, O, M>, DriverError>)
        ensures
            driver is Ok <==> forall|i: int|
                0 <= i < plugins@.len() ==> says_its_filters(#[trigger] plugins@[i]),
            match driver {
                Ok(driver) => {
                    &&& driver.wf()
                    &&& driver.registry() == plugins@
                    &&& driver.services() == (*resolver, *file_emitter, *options)
                },
                Err(error) => match error {
                    DriverError::FilterEvaluationFailed { plugin_idx } => {
                        &&& plugin_idx.0 < plugins@.len()
                        &&& !says_its_filters(plugins@[plugin_idx.0 as int])
                        &&& forall|j: int|
                            0 <= j < plugin_idx.0 ==> says_its_filters(#[trigger] plugins@[j])
                    },
                    DriverError::SharedStatePoisoned => false,
                },
            },
    {
        let mut index_plugin_filters: Vec<HookFilterOptions> = Vec::new();
        let mut i: usize = 0;
        while i < plugins.len()
            invariant
                i <= plugins.len(),
                index_plugin_filters@.len() == i,
                forall|j: int|
                    0 <= j < i ==> Ok::<HookFilterOptions, DriverError>(
                        #[trigger] index_plugin_filters@[j],
                    ) == filters_of(PluginIdx(j as usize), plugins@[j]),
            decreases plugins.len() - i,
        {
            let plugin = &plugins[i];
            let row = HookFilterOptions::from_answers(
                PluginIdx::from_usize(i),
                plugin.call_load_filter(),
                plugin.call_resolve_id_filter(),
                plugin.call_transform_filter(),
            );
            assert(row == filters_of(PluginIdx(i as usize), plugins@[i as int]));
            match row {
                Ok(row) => index_plugin_filters.push(row),
                Err(error) => {
                    assert(error == (DriverError::FilterEvaluationFailed {
                        plugin_idx: PluginIdx(i as usize),
                    }));
                    assert forall|j: int| 0 <= j < i implies says_its_filters(
                        #[trigger] plugins@[j],
                    ) by {
                        assert(Ok::<HookFilterOptions, DriverError>(index_plugin_filters@[j])
                            == filters_of(PluginIdx(j as usize), plugins@[j]));
                    }
                    assert(!says_its_filters(plugins@[i as int]));
                    return Err(error);
                },
            }
            i += 1;
        }
        assert forall|j: int| 0 <= j < plugins@.len() implies says_its_filters(
            #[trigger] plugins@[j],
        ) by {
            assert(Ok::<HookFilterOptions, DriverError>(index_plugin_filters@[j]) == filters_of(
                PluginIdx(j as usize),
                plugins@[j],
            ));
        }
        let order_indicates = HookOrderIndicates::new(&plugins);
        Ok(
            Arc::new(
                Self::assemble(
                    plugins,
                    Arc::new(order_indicates),
                    Arc::new(index_plugin_filters),
                    Arc::clone(resolver),
                    Arc::clone(file_emitter),
                    Arc::clone(options),
                ),
            ),
        )
    }

    /// A driver for the next build pass: the same plugins in the same order,
    /// the same services, the same filters and the same order table, no
    /// watched file and no module table. The plugins are not asked again.
    pub fn new_shared_from_self(&self) -> (rebuilt: SharedPluginDriver<P, R, E, O, M>)
        ensures
            rebuilt.wf(),
            rebuilt.registry() == self.registry(),
            rebuilt.order_table() == self.order_table(),
            forall|kind: HookKind|
                rebuilt.order_table().order_of(kind) == self.order_table().order_of(kind),
            rebuilt.filter_table() == self.filter_table(),
            rebuilt.services() == self.services(),
    {
        proof {
            use_type_invariant(self);
        }
        let mut plugins: Vec<Arc<P>> = Vec::new();
        let mut i: usize = 0;
        while i < self.plugins.len()
            invariant
                i <= self.plugins.len(),
                plugins@ == self.plugins@.subrange(0, i as int),
            decreases self.plugins.len() - i,
        {
            plugins.push(Arc::clone(&self.plugins[i]));
            assert(plugins@ =~= self.plugins@.subrange(0, i + 1));
            i += 1;
        }
        assert(plugins@ =~= self.plugins@);
        Arc::new(
            Self::assemble(
                plugins,
                Arc::clone(&self.order_indicates),
                Arc::clone(&self.index_plugin_filters),
                Arc::clone(&self.resolver),
                Arc::clone(&self.file_emitter),
                Arc::clone(&self.options),
            ),
        )
    }

    /// Puts a driver together from its tables: makes the watched files and
    /// the module table cell of the build pass, and one context per plugin
    /// that holds them.
    fn assemble(
        plugins: Vec<Arc<P>>,
        order_indicates: Arc<HookOrderIndicates>,
        index_plugin_filters: Arc<Vec<HookFilterOptions>>,
        resolver: Arc<R>,
        file_emitter: Arc<E>,
        options: Arc<O>,
    ) -> (driver: Self)
        requires
            index_plugin_filters@.len() == plugins@.len(),
            order_indicates.is_table_of(plugins@),
            forall|i: int|
                0 <= i < index_plugin_filters@.len() ==> Ok::<HookFilterOptions, DriverError>(
                    #[trigger] index_plugin_filters@[i],
                ) == filters_of(PluginIdx(i as usize), plugins@[i]),
        ensures
            driver.wf(),
            driver.registry() == plugins@,
            driver.order_table() == *order_indicates,
            driver.filter_table() == index_plugin_filters@,
            driver.services() == (resolver, file_emitter, options),
    {
        let watch_files: SharedWatchFiles = Arc::new(new_watch_set());
        let module_table: SharedModuleTable<M> = Arc::new(new_cell(None));
        let mut contexts: Vec<PluginContext<R, E, O, M>> = Vec::new();
        let mut i: usize = 0;
        while i < plugins.len()
            invariant
                i <= plugins.len(),
                contexts@.len() == i,
                forall|j: int|
                    0 <= j < i ==> {
                        let context = #[trigger] contexts@[j];
                        &&& context.plugin_idx == PluginIdx(j as usize)
                        &&& context.skipped_resolve_calls@ == Seq::<HookResolveIdSkipped>::empty()
                        &&& context.resolver == resolver
                        &&& context.file_emitter == file_emitter
                        &&& context.options == options
                        &&& context.module_table == module_table
                        &&& context.watch_files == watch_files
                    },
            decreases plugins.len() - i,
        {
            contexts.push(
                PluginContext::new(
                    PluginIdx::from_usize(i),
                    Arc::clone(&resolver),
                    Arc::clone(&file_emitter),
                    Arc::clone(&options),
                    Arc::clone(&module_table),
                    Arc::clone(&watch_files),
                ),
            );
            i += 1;
        }
        PluginDriver {
            plugins,
            contexts,
            order_indicates,
            index_plugin_filters,
            resolver,
            file_emitter,
            options,
            module_table,
            watch_files,
        }
    }

    /// Makes `module_table` the module table of this build pass, in place of
    /// the one before it, if any. There is one cell for the whole driver, so
    /// every context reads the new table from then on. A poisoned cell is an
    /// error, and the cell is then left as it was.
    pub fn set_module_table(&self, module_table: Arc<M>) -> (done: Result<(), DriverError>)
        ensures
            done is Err ==> done == Err::<(), DriverError>(DriverError::SharedStatePoisoned),
    {
        DriverError::from_cell_store(cell_store(&self.module_table, Some(module_table)))
    }

    /// The plugins named by `ordered_plugins`, in that order and as often as
    /// they are named, each with its implementation and its context.
    pub fn iter_plugin_with_context_by_order<'me>(
        &'me self,
        ordered_plugins: &[PluginIdx],
    ) -> (steps: Vec<PluginWithContext<'me, P, R, E, O, M>>)
        requires
            forall|k: int|
                0 <= k < ordered_plugins@.len() ==> self.registered(#[trigger] ordered_plugins@[k]),
        ensures
            self.wf(),
            steps@.len() == ordered_plugins@.len(),
            forall|k: int|
                0 <= k < steps@.len() ==> {
                    let step = #[trigger] steps@[k];
                    let position = ordered_plugins@[k].0 as int;
                    &&& step.0 == ordered_plugins@[k]
                    &&& *step.1 == self.registry()[position]
                    &&& *step.2 == self.context_table()[position]
                },
    {
        proof {
            use_type_invariant(self);
        }
        let mut steps: Vec<PluginWithContext<'me, P, R, E, O, M>> = Vec::new();
        let mut k: usize = 0;
        while k < ordered_plugins.len()
            invariant
                k <= ordered_plugins@.len(),
                self.wf(),
                forall|k: int|
                    0 <= k < ordered_plugins@.len() ==> self.registered(
                        #[trigger] ordered_plugins@[k],
                    ),
                steps@.len() == k,
                forall|j: int|
                    0 <= j < k ==> {
                        let step = #[trigger] steps@[j];
                        let position = ordered_plugins@[j].0 as int;
                        &&& step.0 == ordered_plugins@[j]
                        &&& *step.1 == self.registry()[position]
                        &&& *step.2 == self.context_table()[position]
                    },
            decreases ordered_plugins.len() - k,
        {
            let idx = ordered_plugins[k];
            steps.push((idx, &self.plugins[idx.index()], &self.contexts[idx.index()]));
            k += 1;
        }
        steps
    }

    /// The run of the hook `kind`: every registered plugin once, in the
    /// order of that hook, each with its implementation and its context.
    pub fn iter_plugin_with_context_by_hook<'me>(&'me self, kind: HookKind) -> (steps: Vec<
        PluginWithContext<'me, P, R, E, O, M>,
    >)
        ensures
            self.wf(),
            steps@.len() == self.registry().len(),
            forall|k: int|
                0 <= k < steps@.len() ==> {
                    let step = #[trigger] steps@[k];
                    let idx = self.order_table().order_of(kind)[k];
                    &&& step.0 == idx
                    &&& self.registered(idx)
                    &&& *step.1 == self.registry()[idx.0 as int]
                    &&& *step.2 == self.context_table()[idx.0 as int]
                },
    {
        let order = self.order_indicates.get_order(kind);
        proof {
            use_type_invariant(self);
            assert(self.registry().len() == self.plugins.len());
            lemma_table_orders_are_permutations(self.order_table(), self.registry(), kind);
        }
        self.iter_plugin_with_context_by_order(order.as_slice())
    }

    /// The run of the hook `kind` while the plugins named in `skipped` are
    /// passed over: every other registered plugin once, in the order of that
    /// hook. This is how a plugin reaches its siblings, and how a resolution
    /// in flight keeps away from the plugins that are marked for it.
    pub fn iter_plugin_with_context_by_hook_skipping<'me>(
        &'me self,
        kind: HookKind,
        skipped: &Vec<PluginIdx>,
    ) -> (steps: Vec<PluginWithContext<'me, P, R, E, O, M>>)
        ensures
            self.wf(),
            steps@.len() == order_without(
                self.order_table().order_of(kind),
                skipped@,
                self.order_table().order_of(kind).len() as int,
            ).len(),
            forall|k: int|
                0 <= k < steps@.len() ==> {
                    let step = #[trigger] steps@[k];
                    let idx = order_without(
                        self.order_table().order_of(kind),
                        skipped@,
                        self.order_table().order_of(kind).len() as int,
                    )[k];
                    &&& step.0 == idx
                    &&& self.registered(idx)
                    &&& !skipped@.contains(idx)
                    &&& *step.1 == self.registry()[idx.0 as int]
                    &&& *step.2 == self.context_table()[idx.0 as int]
                },
    {
        let order = self.order_indicates.get_order_skipping(kind, skipped);
        proof {
            use_type_invariant(self);
            let whole = self.order_table().order_of(kind);
            assert(self.registry().len() == self.plugins.len());
            lemma_table_orders_are_permutations(self.order_table(), self.registry(), kind);
            lemma_order_without(whole, skipped@, whole.len() as int);
        }
        self.iter_plugin_with_context_by_order(order.as_slice())
    }

    /// The watched files of this build pass: one set, which every context of
    /// the driver adds to.
    pub fn watch_files(&self) -> (files: &SharedWatchFiles)
        ensures
            *files == self.watch_set(),
            self.wf(),
    {
        proof {
            use_type_invariant(self);
        }
        &self.watch_files
    }

    /// The order table.
    pub fn order_indicates(&self) -> (orders: &HookOrderIndicates)
        ensures
            *orders == self.order_table(),
            orders.is_table_of(self.registry()),
            self.wf(),
    {
        proof {
            use_type_invariant(self);
        }
        &self.order_indicates
    }

    /// The registered plugins, in registration order.
    pub fn plugins(&self) -> (plugins: &Vec<Arc<P>>)
        ensures
            plugins@ == self.registry(),
            self.wf(),
    {
        proof {
            use_type_invariant(self);
        }
        &self.plugins
    }

    /// The contexts, the one of the plugin `i` at position `i`.
    pub fn contexts(&self) -> (contexts: &Vec<PluginContext<R, E, O, M>>)
        ensures
            contexts@ == self.context_table(),
            self.wf(),
    {
        proof {
            use_type_invariant(self);
        }
        &self.contexts
    }

    /// The filters, those of the plugin `i` at position `i`.
    pub fn index_plugin_filters(&self) -> (filters: &Vec<HookFilterOptions>)
        ensures
            filters@ == self.filter_table(),
            self.wf(),
    {
        proof {
            use_type_invariant(self);
        }
        &self.index_plugin_filters
    }
}

impl<P: Pluginable + ?Sized, R, E, O, M> std::ops::Deref for PluginDriver<P, R, E, O, M> {
    type Target = HookOrderIndicates;

    /// The order table, so that the order of a hook reads as a field of the
    /// driver.
    fn deref(&self) -> (orders: &HookOrderIndicates)
        ensures
            *orders == self.order_table(),
            orders.is_table_of(self.registry()),
            self.wf(),
    {
        proof {
            use_type_invariant(self);
        }
        &self.order_indicates
    }
}

} // verus!
