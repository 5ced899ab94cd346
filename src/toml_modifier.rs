//! Where the node's TOML configuration files are.

use vstd::prelude::*;
use crate::paths::{join_path, join_spec};

verus! {

/// Edits the configuration files under a node home.
#[derive(Clone, Debug)]
pub struct TomlModifier {
    home_dir: String,
}

pub open spec fn app_toml_name() -> Seq<char> {
    seq!['c', 'o', 'n', 'f', 'i', 'g', '/', 'a', 'p', 'p', '.', 't', 'o', 'm', 'l']
}

pub open spec fn config_toml_name() -> Seq<char> {
    seq!['c', 'o', 'n', 'f', 'i', 'g', '/', 'c', 'o', 'n', 'f', 'i', 'g', '.', 't', 'o', 'm', 'l']
}

impl TomlModifier {
    pub closed spec fn home_spec(&self) -> Seq<char> {
        self.home_dir@
    }

    /// A modifier for the node home `home_dir`.
    pub fn new(home_dir: &str) -> (r: TomlModifier)
        ensures
            r.home_spec() == home_dir@,
    {
        TomlModifier { home_dir: home_dir.to_owned() }
    }

    /// The node home.
    pub fn home_dir(&self) -> (r: &str)
        ensures
            r@ == self.home_spec(),
    {
        self.home_dir.as_str()
    }

    /// `<home>/config/app.toml`.
    pub fn app_toml_path(&self) -> (r: String)
        ensures
            r@ == join_spec(self.home_spec(), app_toml_name()),
    {
        proof {
            reveal_strlit("config/app.toml");
        }
        join_path(self.home_dir.as_str(), "config/app.toml")
    }

    /// `<home>/config/config.toml`.
    pub fn config_toml_path(&self) -> (r: String)
        ensures
            r@ == join_spec(self.home_spec(), config_toml_name()),
    {
        proof {
            reveal_strlit("config/config.toml");
        }
        join_path(self.home_dir.as_str(), "config/config.toml")
    }
}

} // verus!
