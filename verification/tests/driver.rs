use std::sync::atomic::{AtomicUsize, Ordering};
use std::sync::Arc;

use plugin_driver::driver::PluginDriver;
use plugin_driver::filter::{
    DriverError, FilterAnswer, FilterFailure, HookFilter, HookFilterOptions, PatternFilter,
};
use plugin_driver::hook::{HookKind, PluginHookMeta, PluginIdx, PluginOrder};
use plugin_driver::order::HookOrderIndicates;
use plugin_driver::plugin::Pluginable;

struct Resolver;
struct Emitter;
struct Options;
struct ModuleTable(Vec<String>);

type Driver = PluginDriver<dyn Pluginable, Resolver, Emitter, Options, ModuleTable>;

/// A plugin that answers from what it was made with, the same every time,
/// and counts the questions.
struct Scripted {
    metas: Vec<(HookKind, Option<PluginOrder>)>,
    load: FilterAnswer,
    resolve_id: FilterAnswer,
    transform: FilterAnswer,
    asked: AtomicUsize,
}

impl Pluginable for Scripted {
    fn declared(&self, kind: HookKind) -> Option<PluginHookMeta> {
        self.metas.iter().find(|(k, _)| *k == kind).map(|(_, order)| PluginHookMeta { order: *order })
    }

    fn call_hook_meta(&self, kind: HookKind) -> Option<PluginHookMeta> {
        self.asked.fetch_add(1, Ordering::SeqCst);
        self.declared(kind)
    }

    fn load_filter(&self) -> FilterAnswer {
        self.load.clone()
    }

    fn call_load_filter(&self) -> FilterAnswer {
        self.asked.fetch_add(1, Ordering::SeqCst);
        self.load_filter()
    }

    fn resolve_id_filter(&self) -> FilterAnswer {
        self.resolve_id.clone()
    }

    fn call_resolve_id_filter(&self) -> FilterAnswer {
        self.asked.fetch_add(1, Ordering::SeqCst);
        self.resolve_id_filter()
    }

    fn transform_filter(&self) -> FilterAnswer {
        self.transform.clone()
    }

    fn call_transform_filter(&self) -> FilterAnswer {
        self.asked.fetch_add(1, Ordering::SeqCst);
        self.transform_filter()
    }
}

fn scripted(metas: Vec<(HookKind, Option<PluginOrder>)>) -> Scripted {
    Scripted { metas, load: Ok(None), resolve_id: Ok(None), transform: Ok(None), asked: AtomicUsize::new(0) }
}

fn shared(plugin: Scripted) -> Arc<dyn Pluginable> {
    Arc::new(plugin)
}

fn failure(message: &str) -> FilterAnswer {
    Err(FilterFailure { message: message.to_string() })
}

fn id_filter(accept: &[&str], reject: &[&str]) -> HookFilter {
    HookFilter {
        id: Some(PatternFilter {
            accept: accept.iter().map(|p| p.to_string()).collect(),
            reject: reject.iter().map(|p| p.to_string()).collect(),
        }),
        code: None,
    }
}

fn ids(raw: &[usize]) -> Vec<PluginIdx> {
    raw.iter().map(|i| PluginIdx::from_usize(*i)).collect()
}

fn setup(plugins: Vec<Arc<dyn Pluginable>>) -> Result<Arc<Driver>, DriverError> {
    PluginDriver::new_shared(plugins, &Arc::new(Resolver), &Arc::new(Emitter), &Arc::new(Options))
}

const ALL_KINDS: [HookKind; 21] = [
    HookKind::BuildStart,
    HookKind::ResolveId,
    HookKind::ResolveDynamicImport,
    HookKind::Load,
    HookKind::Transform,
    HookKind::ModuleParsed,
    HookKind::BuildEnd,
    HookKind::RenderStart,
    HookKind::Banner,
    HookKind::Footer,
    HookKind::Intro,
    HookKind::Outro,
    HookKind::RenderChunk,
    HookKind::AugmentChunkHash,
    HookKind::RenderError,
    HookKind::GenerateBundle,
    HookKind::WriteBundle,
    HookKind::CloseBundle,
    HookKind::WatchChange,
    HookKind::CloseWatcher,
    HookKind::TransformAst,
];

fn four_plugins() -> Vec<Arc<dyn Pluginable>> {
    vec![
        shared(scripted(vec![(HookKind::Load, Some(PluginOrder::Post))])),
        shared(scripted(vec![])),
        shared(scripted(vec![(HookKind::Load, Some(PluginOrder::Pre)), (HookKind::Banner, Some(PluginOrder::Post))])),
        shared(scripted(vec![])),
    ]
}

#[test]
fn tables_have_one_entry_per_plugin() {
    let driver = setup(four_plugins()).unwrap();
    assert_eq!(driver.plugins().len(), 4);
    assert_eq!(driver.contexts().len(), 4);
    assert_eq!(driver.index_plugin_filters().len(), 4);
    for (position, context) in driver.contexts().iter().enumerate() {
        assert_eq!(context.plugin_idx, PluginIdx::from_usize(position));
        assert_eq!(context.plugin_idx.index(), position);
        assert!(context.skipped_resolve_calls.is_empty());
    }
}

#[test]
fn a_driver_of_no_plugins_stands() {
    let driver = setup(vec![]).unwrap();
    assert!(driver.plugins().is_empty());
    assert!(driver.contexts().is_empty());
    assert!(driver.index_plugin_filters().is_empty());
    for kind in ALL_KINDS {
        assert!(driver.order_indicates().get_order(kind).is_empty());
        assert!(driver.iter_plugin_with_context_by_hook(kind).is_empty());
    }
}

#[test]
fn the_registry_keeps_the_plugins_in_the_order_given() {
    let plugins = four_plugins();
    let driver = setup(plugins.clone()).unwrap();
    for (position, plugin) in plugins.iter().enumerate() {
        assert!(Arc::ptr_eq(plugin, &driver.plugins()[position]));
    }
}

#[test]
fn the_order_table_is_computed_over_the_whole_registry() {
    let driver = setup(four_plugins()).unwrap();
    let orders = driver.order_indicates();
    assert_eq!(orders.get_order(HookKind::Load), &ids(&[2, 1, 3, 0]));
    assert_eq!(orders.order_by_load_meta, ids(&[2, 1, 3, 0]));
    assert_eq!(orders.get_order(HookKind::Banner), &ids(&[0, 1, 3, 2]));
    assert_eq!(orders.get_order(HookKind::Transform), &ids(&[0, 1, 2, 3]));
}

#[test]
fn two_plugins_resolve_id_and_load_through_the_driver() {
    let driver = setup(vec![
        shared(scripted(vec![(HookKind::ResolveId, Some(PluginOrder::Pre))])),
        shared(scripted(vec![])),
    ])
    .unwrap();
    assert_eq!(driver.order_indicates().get_order(HookKind::ResolveId), &ids(&[0, 1]));
    assert_eq!(driver.order_indicates().get_order(HookKind::Load), &ids(&[0, 1]));
}

#[test]
fn filters_are_kept_as_the_plugins_gave_them() {
    let mut first = scripted(vec![]);
    first.load = Ok(Some(id_filter(&["*.css"], &["vendor/*"])));
    let mut second = scripted(vec![]);
    second.resolve_id = Ok(Some(id_filter(&["virtual:*"], &[])));
    second.transform = Ok(Some(HookFilter {
        id: None,
        code: Some(PatternFilter { accept: vec!["import.meta".to_string()], reject: vec![] }),
    }));
    let driver = setup(vec![shared(first), shared(second)]).unwrap();
    let filters = driver.index_plugin_filters();
    assert_eq!(
        filters[0],
        HookFilterOptions { load: Some(id_filter(&["*.css"], &["vendor/*"])), resolve_id: None, transform: None }
    );
    assert_eq!(filters[1].load, None);
    assert_eq!(filters[1].resolve_id, Some(id_filter(&["virtual:*"], &[])));
    assert_eq!(
        filters[1].transform,
        Some(HookFilter {
            id: None,
            code: Some(PatternFilter { accept: vec!["import.meta".to_string()], reject: vec![] }),
        })
    );
}

#[test]
fn a_failed_load_filter_names_the_plugin() {
    let mut broken = scripted(vec![]);
    broken.load = failure("no load filter");
    let outcome = setup(vec![shared(scripted(vec![])), shared(scripted(vec![])), shared(broken)]);
    assert_eq!(outcome.err(), Some(DriverError::FilterEvaluationFailed { plugin_idx: PluginIdx::from_usize(2) }));
}

#[test]
fn a_failed_resolve_id_filter_names_the_plugin() {
    let mut broken = scripted(vec![]);
    broken.resolve_id = failure("no resolve-id filter");
    let outcome = setup(vec![shared(broken), shared(scripted(vec![]))]);
    assert_eq!(outcome.err(), Some(DriverError::FilterEvaluationFailed { plugin_idx: PluginIdx::from_usize(0) }));
}

#[test]
fn a_failed_transform_filter_names_the_plugin() {
    let mut broken = scripted(vec![]);
    broken.transform = failure("no transform filter");
    let outcome = setup(vec![shared(scripted(vec![])), shared(broken)]);
    assert_eq!(outcome.err(), Some(DriverError::FilterEvaluationFailed { plugin_idx: PluginIdx::from_usize(1) }));
}

#[test]
fn the_first_plugin_that_fails_is_the_one_named() {
    let mut early = scripted(vec![]);
    early.transform = failure("early");
    let mut late = scripted(vec![]);
    late.load = failure("late");
    let outcome = setup(vec![shared(scripted(vec![])), shared(early), shared(late)]);
    assert_eq!(outcome.err(), Some(DriverError::FilterEvaluationFailed { plugin_idx: PluginIdx::from_usize(1) }));
}

#[test]
fn from_answers_keeps_three_good_answers() {
    let row = HookFilterOptions::from_answers(
        PluginIdx::from_usize(7),
        Ok(Some(id_filter(&["a"], &[]))),
        Ok(None),
        Ok(Some(id_filter(&[], &["b"]))),
    );
    assert_eq!(
        row,
        Ok(HookFilterOptions {
            load: Some(id_filter(&["a"], &[])),
            resolve_id: None,
            transform: Some(id_filter(&[], &["b"])),
        })
    );
}

#[test]
fn from_answers_fails_on_any_failed_answer() {
    let expected = Err(DriverError::FilterEvaluationFailed { plugin_idx: PluginIdx::from_usize(7) });
    let idx = PluginIdx::from_usize(7);
    assert_eq!(HookFilterOptions::from_answers(idx, failure("x"), Ok(None), Ok(None)), expected);
    assert_eq!(HookFilterOptions::from_answers(idx, Ok(None), failure("x"), Ok(None)), expected);
    assert_eq!(HookFilterOptions::from_answers(idx, Ok(None), Ok(None), failure("x")), expected);
    assert_eq!(HookFilterOptions::from_answers(idx, failure("x"), failure("y"), failure("z")), expected);
}

#[test]
fn iterating_by_order_follows_the_order_given() {
    let plugins = four_plugins();
    let driver = setup(plugins.clone()).unwrap();
    let order = ids(&[3, 0, 3, 1]);
    let steps = driver.iter_plugin_with_context_by_order(&order);
    assert_eq!(steps.len(), 4);
    for (step, expected) in steps.iter().zip([3usize, 0, 3, 1]) {
        assert_eq!(step.0, PluginIdx::from_usize(expected));
        assert!(Arc::ptr_eq(step.1, &plugins[expected]));
        assert_eq!(step.2.plugin_idx, PluginIdx::from_usize(expected));
        assert!(std::ptr::eq(step.2, &driver.contexts()[expected]));
    }
    assert!(driver.iter_plugin_with_context_by_order(&[]).is_empty());
}

#[test]
fn iterating_by_hook_follows_the_order_of_the_hook() {
    let plugins = four_plugins();
    let driver = setup(plugins.clone()).unwrap();
    let steps = driver.iter_plugin_with_context_by_hook(HookKind::Load);
    let visited: Vec<PluginIdx> = steps.iter().map(|step| step.0).collect();
    assert_eq!(visited, ids(&[2, 1, 3, 0]));
    for step in &steps {
        assert!(Arc::ptr_eq(step.1, &plugins[step.0.index()]));
        assert_eq!(step.2.plugin_idx, step.0);
    }
    let by_order = driver.iter_plugin_with_context_by_order(driver.order_indicates().get_order(HookKind::Load));
    assert_eq!(by_order.iter().map(|step| step.0).collect::<Vec<_>>(), visited);
}

#[test]
fn a_rebuild_keeps_plugins_orders_and_filters() {
    let mut filtered = scripted(vec![(HookKind::Outro, Some(PluginOrder::Pre))]);
    filtered.load = Ok(Some(id_filter(&["*.md"], &[])));
    let mut plugins = four_plugins();
    plugins.push(shared(filtered));
    let driver = setup(plugins.clone()).unwrap();
    let rebuilt = driver.new_shared_from_self();
    assert_eq!(rebuilt.plugins().len(), 5);
    assert_eq!(rebuilt.contexts().len(), 5);
    for (position, plugin) in plugins.iter().enumerate() {
        assert!(Arc::ptr_eq(plugin, &rebuilt.plugins()[position]));
        assert_eq!(rebuilt.contexts()[position].plugin_idx, PluginIdx::from_usize(position));
        assert!(rebuilt.contexts()[position].skipped_resolve_calls.is_empty());
    }
    for kind in ALL_KINDS {
        assert_eq!(rebuilt.order_indicates().get_order(kind), driver.order_indicates().get_order(kind));
    }
    assert_eq!(rebuilt.order_indicates().get_order(HookKind::Load), &ids(&[2, 1, 3, 4, 0]));
    assert_eq!(rebuilt.order_indicates().get_order(HookKind::Outro), &ids(&[4, 0, 1, 2, 3]));
    assert_eq!(rebuilt.index_plugin_filters(), driver.index_plugin_filters());
    assert_eq!(rebuilt.index_plugin_filters()[4].load, Some(id_filter(&["*.md"], &[])));
}

#[test]
fn a_rebuild_does_not_ask_the_plugins_again() {
    let plugin = Arc::new(scripted(vec![(HookKind::Load, Some(PluginOrder::Pre))]));
    let registered: Arc<dyn Pluginable> = plugin.clone();
    let driver = setup(vec![registered]).unwrap();
    let asked_at_setup = plugin.asked.load(Ordering::SeqCst);
    assert_eq!(asked_at_setup, 3 + ALL_KINDS.len());
    let rebuilt = driver.new_shared_from_self();
    assert_eq!(plugin.asked.load(Ordering::SeqCst), asked_at_setup);
    assert_eq!(rebuilt.order_indicates().get_order(HookKind::Load), &ids(&[0]));
}

#[test]
fn a_rebuild_starts_with_no_watched_file() {
    let driver = setup(four_plugins()).unwrap();
    driver.contexts()[0].add_watch_file("src/a.js");
    driver.contexts()[3].add_watch_file("src/b.js");
    assert_eq!(driver.watch_files().len(), 2);
    let rebuilt = driver.new_shared_from_self();
    assert!(!Arc::ptr_eq(driver.watch_files(), rebuilt.watch_files()));
    assert!(rebuilt.watch_files().is_empty());
    rebuilt.contexts()[1].add_watch_file("src/c.js");
    assert_eq!(rebuilt.watch_files().len(), 1);
    assert!(rebuilt.watch_files().contains("src/c.js"));
    assert_eq!(driver.watch_files().len(), 2);
    assert!(!driver.watch_files().contains("src/c.js"));
}

#[test]
fn a_rebuild_starts_with_no_module_table() {
    let driver = setup(four_plugins()).unwrap();
    driver.set_module_table(Arc::new(ModuleTable(vec!["entry.js".to_string()]))).unwrap();
    let rebuilt = driver.new_shared_from_self();
    for context in rebuilt.contexts() {
        assert!(context.current_module_table().unwrap().is_none());
    }
    for context in driver.contexts() {
        assert_eq!(context.current_module_table().unwrap().unwrap().0, vec!["entry.js".to_string()]);
    }
    rebuilt.set_module_table(Arc::new(ModuleTable(vec![]))).unwrap();
    assert_eq!(driver.contexts()[0].current_module_table().unwrap().unwrap().0, vec!["entry.js".to_string()]);
}

#[test]
fn there_is_no_module_table_until_one_is_set() {
    let driver = setup(four_plugins()).unwrap();
    for context in driver.contexts() {
        assert!(matches!(context.current_module_table(), Ok(None)));
    }
}

#[test]
fn every_context_sees_the_module_table_that_was_set() {
    let driver = setup(four_plugins()).unwrap();
    let table = Arc::new(ModuleTable(vec!["a.js".to_string(), "b.js".to_string()]));
    assert_eq!(driver.set_module_table(table.clone()), Ok(()));
    for context in driver.contexts() {
        let seen = context.current_module_table().unwrap().unwrap();
        assert!(Arc::ptr_eq(&seen, &table));
    }
    for step in driver.iter_plugin_with_context_by_hook(HookKind::Transform) {
        assert!(Arc::ptr_eq(&step.2.current_module_table().unwrap().unwrap(), &table));
    }
}

#[test]
fn the_last_module_table_set_is_the_one_seen() {
    let driver = setup(four_plugins()).unwrap();
    let first = Arc::new(ModuleTable(vec!["first".to_string()]));
    let second = Arc::new(ModuleTable(vec!["second".to_string()]));
    driver.set_module_table(first.clone()).unwrap();
    let held = driver.contexts()[2].current_module_table().unwrap().unwrap();
    driver.set_module_table(second.clone()).unwrap();
    for context in driver.contexts() {
        assert!(Arc::ptr_eq(&context.current_module_table().unwrap().unwrap(), &second));
    }
    assert!(Arc::ptr_eq(&held, &first));
    assert_eq!(held.0, vec!["first".to_string()]);
}

#[test]
fn contexts_share_one_set_of_watched_files() {
    let driver = setup(four_plugins()).unwrap();
    assert!(driver.watch_files().is_empty());
    driver.contexts()[0].add_watch_file("src/a.js");
    driver.contexts()[1].add_watch_file("src/a.js");
    driver.contexts()[1].add_watch_file("src/b.js");
    driver.contexts()[0].add_watch_file("src/a.js");
    assert_eq!(driver.watch_files().len(), 2);
    assert!(driver.watch_files().contains("src/a.js"));
    assert!(driver.watch_files().contains("src/b.js"));
    assert!(!driver.watch_files().contains("src/c.js"));
    for context in driver.contexts() {
        assert!(Arc::ptr_eq(&context.watch_files, driver.watch_files()));
    }
}

#[test]
fn contexts_hold_the_services_of_the_driver() {
    let resolver = Arc::new(Resolver);
    let emitter = Arc::new(Emitter);
    let options = Arc::new(Options);
    let driver: Arc<Driver> = PluginDriver::new_shared(four_plugins(), &resolver, &emitter, &options).unwrap();
    for context in driver.contexts() {
        assert!(Arc::ptr_eq(&context.resolver, &resolver));
        assert!(Arc::ptr_eq(&context.file_emitter, &emitter));
        assert!(Arc::ptr_eq(&context.options, &options));
        assert!(Arc::ptr_eq(&context.module_table, &driver.contexts()[0].module_table));
    }
    let rebuilt = driver.new_shared_from_self();
    for context in rebuilt.contexts() {
        assert!(Arc::ptr_eq(&context.resolver, &resolver));
        assert!(Arc::ptr_eq(&context.file_emitter, &emitter));
        assert!(Arc::ptr_eq(&context.options, &options));
        assert!(!Arc::ptr_eq(&context.module_table, &driver.contexts()[0].module_table));
    }
}

#[test]
fn the_orders_read_as_fields_of_the_driver() {
    let driver = setup(four_plugins()).unwrap();
    assert_eq!(driver.order_by_load_meta, ids(&[2, 1, 3, 0]));
    assert_eq!(driver.order_by_banner_meta, ids(&[0, 1, 3, 2]));
    assert_eq!(driver.order_by_resolve_id_meta, ids(&[0, 1, 2, 3]));
    assert_eq!(driver.get_order(HookKind::Load), &ids(&[2, 1, 3, 0]));
    let steps = driver.iter_plugin_with_context_by_order(&driver.order_by_load_meta);
    assert_eq!(steps.iter().map(|step| step.0).collect::<Vec<_>>(), ids(&[2, 1, 3, 0]));
}

#[test]
fn a_hook_run_passes_over_the_skipped_plugins() {
    let plugins = four_plugins();
    let driver = setup(plugins.clone()).unwrap();
    let steps = driver.iter_plugin_with_context_by_hook_skipping(HookKind::Load, &ids(&[1, 0]));
    assert_eq!(steps.iter().map(|step| step.0).collect::<Vec<_>>(), ids(&[2, 3]));
    for step in &steps {
        assert!(Arc::ptr_eq(step.1, &plugins[step.0.index()]));
        assert_eq!(step.2.plugin_idx, step.0);
    }
    let all = driver.iter_plugin_with_context_by_hook_skipping(HookKind::Load, &ids(&[]));
    assert_eq!(all.iter().map(|step| step.0).collect::<Vec<_>>(), ids(&[2, 1, 3, 0]));
    let none = driver.iter_plugin_with_context_by_hook_skipping(HookKind::Load, &ids(&[0, 1, 2, 3, 3]));
    assert!(none.is_empty());
    let foreign = driver.iter_plugin_with_context_by_hook_skipping(HookKind::Load, &ids(&[17]));
    assert_eq!(foreign.len(), 4);
}

#[test]
fn a_plugin_reaches_its_siblings_in_the_order_of_the_hook() {
    let driver = setup(four_plugins()).unwrap();
    let own = driver.contexts()[3].plugin_idx;
    let siblings = driver.iter_plugin_with_context_by_hook_skipping(HookKind::Load, &vec![own]);
    assert_eq!(siblings.iter().map(|step| step.0).collect::<Vec<_>>(), ids(&[2, 1, 0]));
}

#[test]
fn a_resolution_in_flight_keeps_away_from_the_marked_plugins() {
    let driver = setup(four_plugins()).unwrap();
    let mut context = driver.contexts()[2].new_with_skipped_resolve_calls(vec![]);
    let visited = context.resolve("./dep".to_string(), Some("/main.js".to_string()), true, |stack| {
        let nested = driver.contexts()[0].new_with_skipped_resolve_calls(stack.clone());
        let skipped = nested.skipped_plugins(&"./dep".to_string(), &Some("/main.js".to_string()));
        driver
            .iter_plugin_with_context_by_hook_skipping(HookKind::ResolveId, &skipped)
            .iter()
            .map(|step| step.0)
            .collect::<Vec<_>>()
    });
    assert_eq!(visited, ids(&[0, 1, 3]));
    assert!(context.skipped_resolve_calls.is_empty());
    assert!(driver.contexts()[2].skipped_resolve_calls.is_empty());
}

#[test]
fn a_cell_that_gave_its_value_is_read() {
    assert_eq!(DriverError::from_cell_read(Some(5u8)), Ok(5u8));
    assert_eq!(DriverError::from_cell_read(Some(None::<u8>)), Ok(None));
    assert_eq!(DriverError::from_cell_read(Some("table".to_string())), Ok("table".to_string()));
}

#[test]
fn a_poisoned_cell_is_an_error_to_read() {
    assert_eq!(DriverError::from_cell_read(None::<u8>), Err(DriverError::SharedStatePoisoned));
    assert_eq!(DriverError::from_cell_read(None::<Option<String>>), Err(DriverError::SharedStatePoisoned));
}

#[test]
fn a_cell_that_took_the_value_is_stored() {
    assert_eq!(DriverError::from_cell_store(true), Ok(()));
}

#[test]
fn a_poisoned_cell_is_an_error_to_store_into() {
    assert_eq!(DriverError::from_cell_store(false), Err(DriverError::SharedStatePoisoned));
}

#[test]
fn the_table_of_a_driver_is_the_table_of_its_registry() {
    let driver = setup(four_plugins()).unwrap();
    let computed = HookOrderIndicates::new(driver.plugins());
    for kind in ALL_KINDS {
        assert_eq!(driver.get_order(kind), computed.get_order(kind));
        assert_eq!(driver.order_indicates().get_order(kind), computed.get_order(kind));
    }
    let rebuilt = driver.new_shared_from_self();
    for kind in ALL_KINDS {
        assert_eq!(rebuilt.get_order(kind), computed.get_order(kind));
    }
}

#[test]
fn a_hook_runs_eager_plugins_first_and_deferred_ones_last() {
    let plugins = vec![
        shared(scripted(vec![(HookKind::Load, Some(PluginOrder::Post))])),
        shared(scripted(vec![(HookKind::Load, None)])),
        shared(scripted(vec![(HookKind::Load, Some(PluginOrder::Pre))])),
        shared(scripted(vec![(HookKind::Load, Some(PluginOrder::Post))])),
        shared(scripted(vec![(HookKind::Load, Some(PluginOrder::Pre))])),
        shared(scripted(vec![])),
    ];
    let driver = setup(plugins).unwrap();
    let steps = driver.iter_plugin_with_context_by_order(&driver.order_by_load_meta);
    assert_eq!(steps.iter().map(|step| step.0).collect::<Vec<_>>(), ids(&[2, 4, 1, 5, 0, 3]));
    let ranks: Vec<u8> = steps
        .iter()
        .map(|step| match step.1.call_hook_meta(HookKind::Load).and_then(|meta| meta.order) {
            Some(PluginOrder::Pre) => 0,
            None => 1,
            Some(PluginOrder::Post) => 2,
        })
        .collect();
    assert_eq!(ranks, vec![0, 0, 1, 1, 2, 2]);
}

#[test]
fn a_driver_stands_exactly_when_every_plugin_says_its_filters() {
    let mut filtered = scripted(vec![]);
    filtered.load = Ok(Some(id_filter(&["*.ts"], &[])));
    filtered.resolve_id = Ok(None);
    filtered.transform = Ok(Some(id_filter(&[], &["*.d.ts"])));
    assert!(setup(vec![shared(filtered), shared(scripted(vec![]))]).is_ok());
    let mut last = scripted(vec![]);
    last.resolve_id = failure("none");
    assert!(setup(vec![shared(scripted(vec![])), shared(scripted(vec![])), shared(last)]).is_err());
}
