//! What the driver asks of a plugin at setup.

use vstd::prelude::*;
use crate::filter::FilterAnswer;
use crate::hook::{HookKind, PluginHookMeta};

verus! {

/// A registered extension. The driver only ever asks a plugin what it
/// declares; running its hooks is the dispatcher's business.
///
/// What a plugin declares is a fact about the plugin: it gives the same
/// answer every time it is asked. The tables of a driver are computed from
/// these answers once and hold for as long as the plugin list does.
pub trait Pluginable {
    /// What the plugin declares for the hook `kind`, if anything.
    spec fn declared(&self, kind: HookKind) -> Option<PluginHookMeta>;

    /// Asks the plugin what it declares for the hook `kind`.
    fn call_hook_meta(&self, kind: HookKind) -> (meta: Option<PluginHookMeta>)
        ensures
            meta == self.declared(kind),
    ;

    /// The modules that the plugin's `load` hook applies to, or why the
    /// plugin cannot say.
    spec fn load_filter(&self) -> FilterAnswer;

    /// Asks the plugin for the filter of its `load` hook.
    fn call_load_filter(&self) -> (answer: FilterAnswer)
        ensures
            answer == self.load_filter(),
    ;

    /// The modules that the plugin's `resolve-id` hook applies to, or why
    /// the plugin cannot say.
    spec fn resolve_id_filter(&self) -> FilterAnswer;

    /// Asks the plugin for the filter of its `resolve-id` hook.
    fn call_resolve_id_filter(&self) -> (answer: FilterAnswer)
        ensures
            answer == self.resolve_id_filter(),
    ;

    /// The modules that the plugin's `transform` hook applies to, or why
    /// the plugin cannot say.
    spec fn transform_filter(&self) -> FilterAnswer;

    /// Asks the plugin for the filter of its `transform` hook.
    fn call_transform_filter(&self) -> (answer: FilterAnswer)
        ensures
            answer == self.transform_filter(),
    ;
}

} // verus!
