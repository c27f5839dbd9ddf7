//! The context that a plugin's hooks run with: who the plugin is, the
//! services and the shared state of the build, and the record of the plugins
//! that a resolution in flight must pass over.

use std::sync::Arc;
use vstd::prelude::*;
use crate::filter::DriverError;
use crate::hook::PluginIdx;
use crate::shared::{cell_load, watch_set_insert, SharedModuleTable, SharedWatchFiles};

verus! {

/// A mark on the skip stack: while the resolution of `specifier` from
/// `importer` is in flight, the plugin `plugin_idx` is not to be asked about
/// that same request again.
#[derive(Clone, Debug, PartialEq, Eq)]
pub struct HookResolveIdSkipped {
    pub plugin_idx: PluginIdx,
    pub specifier: String,
    pub importer: Option<String>,
}

/// Whether `mark` was left for the request of `specifier` from `importer`.
pub open spec fn marks_request(
    mark: HookResolveIdSkipped,
    specifier: Seq<char>,
    importer: Option<Seq<char>>,
) -> bool {
    mark.specifier@ == specifier && match (mark.importer, importer) {
        (Some(own), Some(asked)) => own@ == asked,
        (None, None) => true,
        _ => false,
    }
}

/// The plugins that the first `upto` marks of `stack` rule out for the
/// request of `specifier` from `importer`, oldest mark first.
pub open spec fn skipped_among(
    stack: Seq<HookResolveIdSkipped>,
    specifier: Seq<char>,
    importer: Option<Seq<char>>,
    upto: int,
) -> Seq<PluginIdx>
    decreases upto,
{
    if upto <= 0 {
        Seq::empty()
    } else {
        let earlier = skipped_among(stack, specifier, importer, upto - 1);
        if marks_request(stack[upto - 1], specifier, importer) {
            earlier.push(stack[upto - 1].plugin_idx)
        } else {
            earlier
        }
    }
}

/// The view of an optional string.
pub open spec fn importer_view(importer: Option<String>) -> Option<Seq<char>> {
    match importer {
        Some(importer) => Some(importer@),
        None => None,
    }
}

/// What one plugin's hooks are handed when they run.
///
/// `R`, `E`, `O` and `M` are the resolver, the file emitter, the bundler's
/// options and the module table. The context only carries them.
#[verifier::reject_recursive_types(M)]
pub struct PluginContext<R, E, O, M> {
    /// The skip stack: the marks of the resolutions in flight.
    pub skipped_resolve_calls: Vec<HookResolveIdSkipped>,
    pub plugin_idx: PluginIdx,
    pub resolver: Arc<R>,
    pub file_emitter: Arc<E>,
    pub options: Arc<O>,
    pub module_table: SharedModuleTable<M>,
    pub watch_files: SharedWatchFiles,
}

impl<R, E, O, M> PluginContext<R, E, O, M> {
    /// Whether `self` and `other` are contexts of the same plugin over the
    /// same services and the same shared state. The skip stacks may differ.
    pub open spec fn same_plugin_and_state(&self, other: &Self) -> bool {
        &&& self.plugin_idx == other.plugin_idx
        &&& self.resolver == other.resolver
        &&& self.file_emitter == other.file_emitter
        &&& self.options == other.options
        &&& self.module_table == other.module_table
        &&& self.watch_files == other.watch_files
    }

    /// The skip stack that is in force while the plugin resolves `specifier`
    /// from `importer`: the stack as it stands, with the plugin's own mark on
    /// top where it asked to be passed over.
    pub open spec fn stack_during(
        &self,
        specifier: String,
        importer: Option<String>,
        skip_self: bool,
    ) -> Seq<HookResolveIdSkipped> {
        if skip_self {
            self.skipped_resolve_calls@.push(
                HookResolveIdSkipped { plugin_idx: self.plugin_idx, specifier, importer },
            )
        } else {
            self.skipped_resolve_calls@
        }
    }

    /// The context of the plugin `plugin_idx`, with nothing on its skip stack.
    pub fn new(
        plugin_idx: PluginIdx,
        resolver: Arc<R>,
        file_emitter: Arc<E>,
        options: Arc<O>,
        module_table: SharedModuleTable<M>,
        watch_files: SharedWatchFiles,
    ) -> (context: Self)
        ensures
            context.skipped_resolve_calls@ == Seq::<HookResolveIdSkipped>::empty(),
            context.plugin_idx == plugin_idx,
            context.resolver == resolver,
            context.file_emitter == file_emitter,
            context.options == options,
            context.module_table == module_table,
            context.watch_files == watch_files,
    {
        PluginContext {
            skipped_resolve_calls: Vec::new(),
            plugin_idx,
            resolver,
            file_emitter,
            options,
            module_table,
            watch_files,
        }
    }

    /// A context of the same plugin over the same services and shared state,
    /// with `skipped_resolve_calls` as its skip stack. This is how a
    /// resolution gets a stack of its own, apart from any other invocation of
    /// the same plugin that runs at the same time.
    pub fn new_with_skipped_resolve_calls(
        &self,
        skipped_resolve_calls: Vec<HookResolveIdSkipped>,
    ) -> (context: Self)
        ensures
            context.skipped_resolve_calls == skipped_resolve_calls,
            context.same_plugin_and_state(self),
    {
        PluginContext {
            skipped_resolve_calls,
            plugin_idx: self.plugin_idx,
            resolver: Arc::clone(&self.resolver),
            file_emitter: Arc::clone(&self.file_emitter),
            options: Arc::clone(&self.options),
            module_table: Arc::clone(&self.module_table),
            watch_files: Arc::clone(&self.watch_files),
        }
    }

    /// Resolves `specifier` from `importer` by one call of `resolver_call`,
    /// which is handed the skip stack in force. Where `skip_self` is set the
    /// plugin's own mark is on that stack for the length of the call, so that
    /// the resolution does not come back to the plugin that started it.
    ///
    /// The mark is gone when the call has returned, whatever it returned.
    pub fn resolve<T, F>(
        &mut self,
        specifier: String,
        importer: Option<String>,
        skip_self: bool,
        resolver_call: F,
    ) -> (outcome: T) where F: FnOnce(&Vec<HookResolveIdSkipped>) -> T
        requires
            forall|stack: &Vec<HookResolveIdSkipped>|
                stack@ == old(self).stack_during(specifier, importer, skip_self)
                    ==> #[trigger] resolver_call.requires((stack,)),
        ensures
            final(self).skipped_resolve_calls@ == old(self).skipped_resolve_calls@,
            final(self).same_plugin_and_state(old(self)),
            exists|stack: &Vec<HookResolveIdSkipped>|
                stack@ == old(self).stack_during(specifier, importer, skip_self)
                    && #[trigger] resolver_call.ensures((stack,), outcome),
    {
        if skip_self {
            self.skipped_resolve_calls.push(
                HookResolveIdSkipped { plugin_idx: self.plugin_idx, specifier, importer },
            );
            let outcome = resolver_call(&self.skipped_resolve_calls);
            self.skipped_resolve_calls.pop();
            assert(self.skipped_resolve_calls@ =~= old(self).skipped_resolve_calls@);
            outcome
        } else {
            resolver_call(&self.skipped_resolve_calls)
        }
    }

    /// The plugins that the skip stack rules out for the request of
    /// `specifier` from `importer`, oldest mark first.
    pub fn skipped_plugins(&self, specifier: &String, importer: &Option<String>) -> (skipped: Vec<
        PluginIdx,
    >)
        ensures
            skipped@ == skipped_among(
                self.skipped_resolve_calls@,
                specifier@,
                importer_view(*importer),
                self.skipped_resolve_calls@.len() as int,
            ),
    {
        let mut skipped: Vec<PluginIdx> = Vec::new();
        let mut i: usize = 0;
        while i < self.skipped_resolve_calls.len()
            invariant
                i <= self.skipped_resolve_calls@.len(),
                skipped@ == skipped_among(
                    self.skipped_resolve_calls@,
                    specifier@,
                    importer_view(*importer),
                    i as int,
                ),
            decreases self.skipped_resolve_calls.len() - i,
        {
            let mark = &self.skipped_resolve_calls[i];
            let same_importer = match (&mark.importer, importer) {
                (Some(own), Some(asked)) => *own == *asked,
                (None, None) => true,
                _ => false,
            };
            if mark.specifier == *specifier && same_importer {
                skipped.push(mark.plugin_idx);
            }
            i += 1;
        }
        skipped
    }

    /// Adds `path` to the files that the build watches. The set is shared by
    /// every context of the driver, and adding a path twice is adding it once.
    pub fn add_watch_file(&self, path: &str) {
        watch_set_insert(&self.watch_files, path);
    }

    /// The module table of the build at the moment of the call: `None` until
    /// one has been set. A poisoned cell is an error.
    pub fn current_module_table(&self) -> (table: Result<Option<Arc<M>>, DriverError>)
        ensures
            table is Err ==> table == Err::<Option<Arc<M>>, DriverError>(
                DriverError::SharedStatePoisoned,
            ),
    {
        DriverError::from_cell_read(cell_load(&self.module_table))
    }
}

} // verus!
