//! The lines the tool prints about aliases: the listing of the store
//! and the line shown before a command is run.

use crate::store::AliasStore;
use vstd::prelude::*;
use vstd::string::StringExecFns;

verus! {

/// The listing line for one alias.
pub open spec fn alias_line(name: Seq<char>, command: Seq<char>) -> Seq<char> {
    "Name: "@ + name + ", Command: "@ + command
}

/// The line printed before a stored command is run.
pub open spec fn execute_line(command: Seq<char>) -> Seq<char> {
    "Execute command: "@ + command
}

/// One listing line per alias, in store order.
pub fn render_alias_lines(store: &AliasStore) -> (r: Vec<String>)
    ensures
        r@.len() == store@.len(),
        forall|i: int|
            0 <= i < store@.len() ==> r@[i]@ == alias_line(store@[i].0, store@[i].1),
{
    let pairs = store.pairs();
    let n = pairs.len();
    let mut r: Vec<String> = Vec::new();
    let mut i: usize = 0;
    while i < n
        invariant
            n == pairs@.len(),
            n == store@.len(),
            forall|j: int|
                0 <= j < n ==> (pairs@[j].0@, pairs@[j].1@) == #[trigger] store@[j],
            i <= n,
            r@.len() == i,
            forall|j: int| 0 <= j < i ==> r@[j]@ == alias_line(store@[j].0, store@[j].1),
        decreases n - i,
    {
        let p: &(String, String) = &pairs[i];
        let mut line = String::new();
        line.append("Name: ");
        line.append(p.0.as_str());
        line.append(", Command: ");
        line.append(p.1.as_str());
        proof {
            assert(line@ =~= alias_line(store@[i as int].0, store@[i as int].1));
        }
        r.push(line);
        i += 1;
    }
    r
}

/// The line announcing the command about to be run.
pub fn render_execute_line(command: &String) -> (r: String)
    ensures
        r@ == execute_line(command@),
{
    let mut line = String::new();
    line.append("Execute command: ");
    line.append(command.as_str());
    proof {
        assert(line@ =~= execute_line(command@));
    }
    line
}

} // verus!
