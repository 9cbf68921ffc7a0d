//! Forum boards and their article templates.

use vstd::prelude::*;

verus! {

/// A node template to be stored for a board: the board's id and the
/// template's definition text.
#[derive(Debug, Clone, PartialEq, Eq)]
pub struct NewNodeTemplate {
    pub board_id: i64,
    pub def: String,
}

/// The node templates of the board `board_id`, one for each definition in
/// `defs`, in the same order.
pub fn node_templates(board_id: i64, defs: Vec<String>) -> (r: Vec<NewNodeTemplate>)
    ensures
        r.len() == defs.len(),
        forall|i: int| 0 <= i < r.len() ==> (#[trigger] r[i]).board_id == board_id && r[i].def == defs[i],
{
    let mut r: Vec<NewNodeTemplate> = Vec::new();
    let n = defs.len();
    let mut i: usize = 0;
    while i < n
        invariant
            n == defs.len(),
            i <= n,
            r.len() == i,
            forall|j: int| 0 <= j < i ==> (#[trigger] r[j]).board_id == board_id && r[j].def == defs[j],
        decreases n - i,
    {
        r.push(NewNodeTemplate { board_id, def: defs[i].clone() });
        i = i + 1;
    }
    r
}

} // verus!
