//! The closed set of named connectivity tables a diagram can be rendered with.

use vstd::prelude::*;
use crate::text::same_text;

verus! {

/// A connectivity table known to the renderer, selected by its name.
#[derive(Clone, Copy, Debug, PartialEq, Eq, Structural)]
pub enum TableKind {
    /// The table named `"default"`.
    Default,
    /// The table named `"demo"`.
    Demo,
}

/// The table a name selects, by exact match; `None` for any other name.
pub open spec fn table_of(name: Seq<char>) -> Option<TableKind> {
    if name == "default"@ {
        Some(TableKind::Default)
    } else if name == "demo"@ {
        Some(TableKind::Demo)
    } else {
        None
    }
}

/// Resolves a table name; any name outside the closed set gives `None`.
pub fn table_kind(name: &str) -> (r: Option<TableKind>)
    ensures
        r == table_of(name@),
{
    if same_text(name, "default") {
        Some(TableKind::Default)
    } else if same_text(name, "demo") {
        Some(TableKind::Demo)
    } else {
        None
    }
}

impl TableKind {
    /// The name that selects this table.
    pub fn name(&self) -> (r: &'static str)
        ensures
            table_of(r@) == Some(*self),
    {
        proof {
            reveal_strlit("default");
            reveal_strlit("demo");
        }
        let r = match self {
            TableKind::Default => "default",
            TableKind::Demo => "demo",
        };
        assert("default"@.len() != "demo"@.len());
        r
    }
}

} // verus!
