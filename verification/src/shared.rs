//! The state that every plugin context of one driver shares, and that many
//! plugin invocations may touch at once: the watched files and the cell that
//! holds the current module table.
//!
//! Both live behind interior mutability, so a value of either type says
//! nothing about what it holds at a given moment, and nothing is claimed here
//! about what a read returns. The functions of this file each make one call
//! into `dashmap` or `std::sync`; Verus takes their signatures on trust and
//! does not look into their bodies.

use std::sync::{Arc, Mutex};
use arcstr::ArcStr;
use dashmap::DashSet;
use vstd::prelude::*;

verus! {

/// `arcstr::ArcStr`, an interned string. Only ever carried as the key type of
/// the watched files.
#[verifier::external_type_specification]
#[verifier::external_body]
pub struct ExArcStr(ArcStr);

/// `dashmap::DashSet`, a concurrent set.
#[verifier::external_type_specification]
#[verifier::external_body]
#[verifier::reject_recursive_types(K)]
#[verifier::reject_recursive_types(S)]
pub struct ExDashSet<K, S>(DashSet<K, S>);

/// `std::sync::Mutex`.
#[verifier::external_type_specification]
#[verifier::external_body]
#[verifier::reject_recursive_types(T)]
pub struct ExMutex<T: ?Sized>(Mutex<T>);

/// The set of watched files of one build pass.
pub type SharedWatchFiles = Arc<DashSet<ArcStr>>;

/// The cell that holds the module table of one build pass: nothing until the
/// module graph is there, then the table.
pub type SharedModuleTable<M> = Arc<Mutex<Option<Arc<M>>>>;

/// `DashSet::default`: a set of its own, made by this call. Nothing is
/// claimed of what it holds.
#[verifier::external_body]
pub(crate) fn new_watch_set() -> DashSet<ArcStr> {
    DashSet::default()
}

/// `DashSet::insert`, with the path interned by `ArcStr::from`. Returns what
/// `insert` returns: whether the path was not in the set when the call got
/// to it. Other holders of the set may insert at the same time, so nothing
/// is claimed of the result.
#[verifier::external_body]
pub(crate) fn watch_set_insert(files: &DashSet<ArcStr>, path: &str) -> bool {
    files.insert(ArcStr::from(path))
}

/// `Mutex::new`: a cell of its own that holds `value`.
#[verifier::external_body]
pub(crate) fn new_cell<T>(value: T) -> Mutex<T> {
    Mutex::new(value)
}

/// `Mutex::lock`, then puts `value` in the cell in place of what it held.
/// Returns whether the cell took the value: it does not when the cell is
/// poisoned, and then it is left as it was.
#[verifier::external_body]
pub(crate) fn cell_store<T>(cell: &Mutex<T>, value: T) -> bool {
    match cell.lock() {
        Ok(mut held) => {
            *held = value;
            true
        },
        Err(_) => false,
    }
}

/// `Mutex::lock`, then a clone of what the cell holds at that moment, or
/// nothing when the cell is poisoned. Other holders of the cell may store at
/// any time, so nothing is claimed of the value.
#[verifier::external_body]
pub(crate) fn cell_load<T: Clone>(cell: &Mutex<T>) -> Option<T> {
    match cell.lock() {
        Ok(held) => Some(held.clone()),
        Err(_) => None,
    }
}

} // verus!
