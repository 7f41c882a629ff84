//! Where the JSON configuration lives on the card.

use vstd::prelude::*;

use crate::config::AppConfig;
use crate::fs::{config_path, config_path_of};

verus! {

/// A place the configuration is loaded from and saved to. Loading gives the
/// defaults when nothing was saved yet; errors are reported as text.
pub trait ConfigStore {
    fn load_or_create(&self) -> Result<AppConfig, String>;

    fn save(&self, config: &AppConfig) -> Result<(), String>;
}

/// The configuration kept as JSON under a storage root.
#[derive(Debug, Clone, PartialEq, Eq)]
pub struct JsonConfigStore {
    root: String,
}

impl View for JsonConfigStore {
    type V = Seq<char>;

    /// The storage root.
    closed spec fn view(&self) -> Seq<char> {
        self.root@
    }
}

impl JsonConfigStore {
    /// A store under the storage root `root`.
    pub fn new(root: String) -> (r: Self)
        ensures
            r@ == root@,
    {
        JsonConfigStore { root }
    }

    /// The path of the configuration file: "channel9/config.json" under the
    /// root.
    pub fn path(&self) -> (r: String)
        ensures
            r@ == config_path_of(self@),
    {
        config_path(self.root.as_str())
    }
}

} // verus!
