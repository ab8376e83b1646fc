//! Where the tooling-gap log lives: requests that no tool could serve are
//! appended to it, one JSON line each, so that missing tools can be found.
use crate::paths::{join, join_path};
use vstd::prelude::*;

verus! {

/// The tooling-gap log, by its path.
#[derive(Debug)]
pub struct GapStore {
    pub path: String,
}

/// The log's path: under `$XDG_STATE_HOME/bbot` where that variable is set,
/// else under `$HOME/.local/state/bbot` (`.` standing in for an unset
/// `HOME`).
pub open spec fn gap_store_path(xdg_state_home: Option<Seq<char>>, home: Option<Seq<char>>) -> Seq<
    char,
> {
    match xdg_state_home {
        Some(x) => join_path(join_path(x, "bbot"@), "tooling-gaps.jsonl"@),
        None => {
            let h = match home {
                Some(h) => h,
                None => "."@,
            };
            join_path(
                join_path(join_path(join_path(h, ".local"@), "state"@), "bbot"@),
                "tooling-gaps.jsonl"@,
            )
        },
    }
}

impl GapStore {
    /// The log at its default place, given the values of `XDG_STATE_HOME`
    /// and `HOME` (each `None` where unset).
    pub fn from_state_dirs(xdg_state_home: Option<String>, home: Option<String>) -> (r: Self)
        ensures
            r.path@ == gap_store_path(
                match xdg_state_home {
                    Some(x) => Some(x@),
                    None => None,
                },
                match home {
                    Some(h) => Some(h@),
                    None => None,
                },
            ),
    {
        proof {
            reveal_strlit("bbot");
            reveal_strlit("tooling-gaps.jsonl");
            reveal_strlit(".local");
            reveal_strlit("state");
        }
        let path = match xdg_state_home {
            Some(x) => join(join(x.as_str(), "bbot").as_str(), "tooling-gaps.jsonl"),
            None => {
                let h = match home {
                    Some(h) => h,
                    None => ".".to_owned(),
                };
                let local = join(h.as_str(), ".local");
                let state = join(local.as_str(), "state");
                let bbot = join(state.as_str(), "bbot");
                join(bbot.as_str(), "tooling-gaps.jsonl")
            },
        };
        GapStore { path }
    }
}

} // verus!
