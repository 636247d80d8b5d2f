use vstd::prelude::*;

verus! {

/// Application configuration handed to the catalog accessor.
///
/// The accessor keeps this parameter so that a future data source can be
/// selected through it, but reads nothing from it today: the catalog it
/// returns is the same for every `Settings` value.
pub struct Settings {
    /// Name of the data source a future accessor could select.
    pub data_source: String,
}

} // verus!
