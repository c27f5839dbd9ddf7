//! Hook filters: which modules a plugin's `load`, `resolve-id` and
//! `transform` hooks apply to. The driver asks each plugin for them once, at
//! setup, and keeps the answers as they came; matching them against a module
//! is the dispatcher's business.

use vstd::prelude::*;
use crate::hook::PluginIdx;

verus! {

/// Patterns that select, and patterns that rule out.
#[derive(Clone, Debug, PartialEq, Eq)]
pub struct PatternFilter {
    pub accept: Vec<String>,
    pub reject: Vec<String>,
}

/// A predicate over a module's identifier, its content, or both.
#[derive(Clone, Debug, PartialEq, Eq)]
pub struct HookFilter {
    pub id: Option<PatternFilter>,
    pub code: Option<PatternFilter>,
}

/// Why a plugin could not say what its filter is.
#[derive(Clone, Debug, PartialEq, Eq)]
pub struct FilterFailure {
    pub message: String,
}

/// What a plugin answers when asked for the filter of one hook.
pub type FilterAnswer = Result<Option<HookFilter>, FilterFailure>;

/// The filters of one plugin.
#[derive(Clone, Debug, PartialEq, Eq)]
pub struct HookFilterOptions {
    pub load: Option<HookFilter>,
    pub resolve_id: Option<HookFilter>,
    pub transform: Option<HookFilter>,
}

/// What can go wrong in the driver.
#[derive(Clone, Copy, Debug, PartialEq, Eq, Structural)]
pub enum DriverError {
    /// At setup, the plugin `plugin_idx` failed to say what its filters are.
    FilterEvaluationFailed { plugin_idx: PluginIdx },
    /// A holder of the module table cell failed while it held the cell.
    SharedStatePoisoned,
}

impl DriverError {
    /// What a read of the module table cell comes to, given what the cell
    /// gave: the value that it held, or nothing because it was poisoned.
    pub fn from_cell_read<T>(read: Option<T>) -> (outcome: Result<T, DriverError>)
        ensures
            outcome == match read {
                Some(held) => Ok::<T, DriverError>(held),
                None => Err::<T, DriverError>(DriverError::SharedStatePoisoned),
            },
    {
        match read {
            Some(held) => Ok(held),
            None => Err(DriverError::SharedStatePoisoned),
        }
    }

    /// What a store into the module table cell comes to, given whether the
    /// cell took the value: it does not when it was poisoned.
    pub fn from_cell_store(stored: bool) -> (outcome: Result<(), DriverError>)
        ensures
            outcome == if stored {
                Ok::<(), DriverError>(())
            } else {
                Err::<(), DriverError>(DriverError::SharedStatePoisoned)
            },
    {
        if stored {
            Ok(())
        } else {
            Err(DriverError::SharedStatePoisoned)
        }
    }
}

/// The filter table row that three answers of the plugin `plugin_idx` make,
/// or the error that they make.
pub open spec fn filters_from_answers(
    plugin_idx: PluginIdx,
    load: FilterAnswer,
    resolve_id: FilterAnswer,
    transform: FilterAnswer,
) -> Result<HookFilterOptions, DriverError> {
    if load is Ok && resolve_id is Ok && transform is Ok {
        Ok(
            HookFilterOptions {
                load: load->Ok_0,
                resolve_id: resolve_id->Ok_0,
                transform: transform->Ok_0,
            },
        )
    } else {
        Err(DriverError::FilterEvaluationFailed { plugin_idx })
    }
}

impl HookFilterOptions {
    /// Puts the three answers of the plugin `plugin_idx` into one row of the
    /// filter table, as they came. One failed answer fails the row, and the
    /// error names the plugin.
    pub fn from_answers(
        plugin_idx: PluginIdx,
        load: FilterAnswer,
        resolve_id: FilterAnswer,
        transform: FilterAnswer,
    ) -> (row: Result<HookFilterOptions, DriverError>)
        ensures
            row == filters_from_answers(plugin_idx, load, resolve_id, transform),
    {
        match (load, resolve_id, transform) {
            (Ok(load), Ok(resolve_id), Ok(transform)) => Ok(
                HookFilterOptions { load, resolve_id, transform },
            ),
            _ => Err(DriverError::FilterEvaluationFailed { plugin_idx }),
        }
    }
}

} // verus!
