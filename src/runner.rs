//! Decisions around the node process: where its files are, and when the
//! command that follows its start is due.

use vstd::prelude::*;
use crate::paths::{join_path, join_spec};
use crate::text::{contains, contains_spec};

verus! {

/// The genesis file of a node home: `<home>/config/genesis.json`.
pub fn genesis_path(home_dir: &str) -> (r: String)
    ensures
        r@ == join_spec(
            join_spec(home_dir@, seq!['c', 'o', 'n', 'f', 'i', 'g']),
            seq!['g', 'e', 'n', 'e', 's', 'i', 's', '.', 'j', 's', 'o', 'n'],
        ),
{
    proof {
        reveal_strlit("config");
        reveal_strlit("genesis.json");
    }
    let config = join_path(home_dir, "config");
    join_path(config.as_str(), "genesis.json")
}

/// The node binary inside the workspace.
pub fn binary_path(workspace_dir: &str, binary_relative_path: &str) -> (r: String)
    ensures
        r@ == join_spec(workspace_dir@, binary_relative_path@),
{
    join_path(workspace_dir, binary_relative_path)
}

/// The command that starts the node: `<binary> start --home <home>`.
pub open spec fn start_command_spec(binary: Seq<char>, home: Seq<char>) -> Seq<char> {
    binary + seq![' ', 's', 't', 'a', 'r', 't', ' ', '-', '-', 'h', 'o', 'm', 'e', ' '] + home
}

/// The command line that starts the node, shown for later use.
pub fn start_command_line(binary: &str, home: &str) -> (r: String)
    ensures
        r@ == start_command_spec(binary@, home@),
{
    let mut r = binary.to_owned();
    r.append(" start --home ");
    r.append(home);
    proof {
        reveal_strlit(" start --home ");
        assert(r@ =~= start_command_spec(binary@, home@));
    }
    r
}

/// The log text that signals the node is running, when none is configured.
pub open spec fn default_pattern() -> Seq<char> {
    seq!['c', 'o', 'm', 'm', 'i', 't', 't', 'e', 'd', ' ', 's', 't', 'a', 't', 'e']
}

/// Watches the node's output for the pattern that triggers the post-start
/// command; it fires once, on the first line that holds the pattern.
#[derive(Clone, Debug)]
pub struct PostStartWatch {
    pub pattern: String,
    pub fired: bool,
}

impl PostStartWatch {
    /// A watch for `pattern`, or for the default pattern when none is given.
    pub fn new(pattern: Option<&str>) -> (r: PostStartWatch)
        ensures
            r.pattern@ == (match pattern {
                Some(p) => p@,
                None => default_pattern(),
            }),
            !r.fired,
    {
        let p = match pattern {
            Some(p) => p.to_owned(),
            None => {
                proof {
                    reveal_strlit("committed state");
                }
                "committed state".to_owned()
            },
        };
        PostStartWatch { pattern: p, fired: false }
    }

    /// Reads one output line; true when this line fires the watch.
    pub fn observe(&mut self, line: &str) -> (r: bool)
        ensures
            r == (!old(self).fired && contains_spec(line@, old(self).pattern@)),
            final(self).fired == (old(self).fired || r),
            final(self).pattern == old(self).pattern,
    {
        if self.fired {
            return false;
        }
        if contains(line, self.pattern.as_str()) {
            self.fired = true;
            true
        } else {
            false
        }
    }
}

} // verus!
