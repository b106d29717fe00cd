//! Forwarding of menu activations to the web front-end.
//!
//! An activation is delivered as a browser `CustomEvent` named `menu` whose
//! `detail.itemId` carries the activated item's identifier, verbatim.

use vstd::prelude::*;

verus! {

/// Script text up to the point where the item identifier is inserted.
pub const SCRIPT_HEAD: &'static str = "\n\t\t\t\twindow.dispatchEvent(new CustomEvent(\n\t\t\t\t\t'menu', \n\t\t\t\t\t{\n\t\t\t\t\t\tdetail: {\n\t\t\t\t\t\t\titemId: \"";

/// Script text after the item identifier.
pub const SCRIPT_TAIL: &'static str = "\"\n\t\t\t\t\t\t}\n\t\t\t\t\t}\n\t\t\t\t));\n\t\t\t";

/// The script that dispatches the `menu` event for the item `id`.
pub open spec fn menu_script(id: Seq<char>) -> Seq<char> {
    SCRIPT_HEAD@ + id + SCRIPT_TAIL@
}

/// Builds the script that, evaluated in the web view, dispatches the `menu`
/// event carrying `id` as its item identifier.
pub fn menu_event_script(id: &str) -> (r: String)
    ensures
        r@ == menu_script(id@),
{
    let head = String::from_str(SCRIPT_HEAD);
    let with_id = head.concat(id);
    with_id.concat(SCRIPT_TAIL)
}

/// The identifier sits in the script right after the fixed head, so the
/// script determines the item it was built for: two different identifiers
/// never dispatch the same event.
pub proof fn lemma_menu_script_determines_id(a: Seq<char>, b: Seq<char>)
    ensures
        menu_script(a).subrange(SCRIPT_HEAD@.len() as int, (SCRIPT_HEAD@.len() + a.len()) as int) == a,
        menu_script(a) == menu_script(b) ==> a == b,
{
    let h = SCRIPT_HEAD@.len() as int;
    assert(menu_script(a).subrange(h, h + a.len()) =~= a);
    assert(menu_script(b).subrange(h, h + b.len()) =~= b);
}

} // verus!
