//! From the data plane's committed values to the control plane's messages.
use vstd::prelude::*;

use crate::control_plane::model::{Alias, Shortcut};
use crate::data_plane::model::{CommittedAlias, CommittedShortcut, CommittedShortcutList};

verus! {

/// The control plane alias of a committed alias.
pub open spec fn alias_of(alias: CommittedAlias) -> Alias {
    Alias { uid: alias.uid, name: alias.name }
}

/// Whether `converted` holds the control plane aliases of `committed`, in order.
pub open spec fn aliases_of(converted: Seq<Alias>, committed: Seq<CommittedAlias>) -> bool {
    &&& converted.len() == committed.len()
    &&& forall|i: int| 0 <= i < committed.len() ==> #[trigger] converted[i] == alias_of(committed[i])
}

/// Whether `converted` is the control plane shortcut of `committed`.
pub open spec fn shortcut_of(converted: Shortcut, committed: CommittedShortcut) -> bool {
    &&& converted.uid == committed.destination.uid
    &&& converted.url == committed.destination.url
    &&& converted.num_params == committed.destination.num_params
    &&& converted.is_fallback == committed.destination.is_fallback
    &&& converted.is_default_fallback == committed.destination.is_default_fallback
    &&& converted.description == committed.destination.description
    &&& aliases_of(converted.aliases@, committed.aliases@)
}

/// Whether `converted` holds the control plane shortcuts of `committed`, in order.
pub open spec fn shortcuts_of(converted: Seq<Shortcut>, committed: Seq<CommittedShortcut>) -> bool {
    &&& converted.len() == committed.len()
    &&& forall|i: int| 0 <= i < committed.len() ==> shortcut_of(#[trigger] converted[i], committed[i])
}

/// Conversion from a data plane value (a `From` of its own, since both sides are
/// messages that the conversion must not be tied to).
pub trait FromDataPlane<D>: Sized {
    fn convert(data_plane_struct: D) -> Self;
}

/// The control plane aliases of committed aliases, in order.
pub(crate) fn convert_aliases(committed: &Vec<CommittedAlias>) -> (converted: Vec<Alias>)
    ensures
        aliases_of(converted@, committed@),
{
    let mut converted: Vec<Alias> = Vec::new();
    let mut i: usize = 0;
    while i < committed.len()
        invariant
            i <= committed.len(),
            converted@.len() == i,
            forall|k: int| 0 <= k < i ==> #[trigger] converted@[k] == alias_of(committed@[k]),
        decreases committed.len() - i,
    {
        let alias = &committed[i];
        converted.push(Alias { uid: alias.uid.clone(), name: alias.name.clone() });
        proof {
            assert(converted@[i as int] == alias_of(committed@[i as int]));
        }
        i = i + 1;
    }
    converted
}

/// The control plane shortcut of a committed shortcut.
fn convert_shortcut(committed: &CommittedShortcut) -> (converted: Shortcut)
    ensures
        shortcut_of(converted, *committed),
{
    let destination = &committed.destination;
    Shortcut {
        uid: destination.uid.clone(),
        url: destination.url.clone(),
        num_params: destination.num_params,
        is_fallback: destination.is_fallback,
        is_default_fallback: destination.is_default_fallback,
        description: destination.description.clone(),
        aliases: convert_aliases(&committed.aliases),
    }
}

impl FromDataPlane<CommittedAlias> for Alias {
    fn convert(committed_alias: CommittedAlias) -> (alias: Self)
        ensures
            alias == alias_of(committed_alias),
    {
        Alias { uid: committed_alias.uid, name: committed_alias.name }
    }
}

impl FromDataPlane<CommittedShortcut> for Shortcut {
    fn convert(committed_shortcut: CommittedShortcut) -> (shortcut: Self)
        ensures
            shortcut_of(shortcut, committed_shortcut),
    {
        convert_shortcut(&committed_shortcut)
    }
}

impl FromDataPlane<CommittedShortcutList> for Vec<Shortcut> {
    fn convert(committed_shortcut_list: CommittedShortcutList) -> (shortcuts: Self)
        ensures
            shortcuts_of(shortcuts@, committed_shortcut_list.shortcuts@),
    {
        let committed = committed_shortcut_list.shortcuts;
        let mut shortcuts: Vec<Shortcut> = Vec::new();
        let mut i: usize = 0;
        while i < committed.len()
            invariant
                i <= committed.len(),
                shortcuts@.len() == i,
                forall|k: int| 0 <= k < i ==> shortcut_of(#[trigger] shortcuts@[k], committed@[k]),
            decreases committed.len() - i,
        {
            shortcuts.push(convert_shortcut(&committed[i]));
            i = i + 1;
        }
        shortcuts
    }
}

} // verus!
