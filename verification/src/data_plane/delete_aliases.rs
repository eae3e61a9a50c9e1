//! Deleting aliases of a shortcut, as steps between the data plane's count, deletions
//! and commit: count the shortcut's aliases, refuse a deletion that would leave it with
//! none, delete each named alias in one transaction, then commit.
use vstd::prelude::*;

use crate::data_plane::client::{
    check_alias_deleted, check_delete_aliases, committed_aliases, committed_aliases_of, delete_aliases_refusal,
    skips_deletion,
};
use crate::data_plane::error::{error_view, DataPlaneResult, ErrorKind};
use crate::data_plane::model::CommittedAlias;

verus! {

/// Where deleting aliases stands.
#[derive(Debug, Clone, Copy, PartialEq, Eq, Structural)]
pub enum DeleteAliasesStage {
    /// Nothing called yet.
    Start,
    /// Counting the shortcut's aliases.
    Counting,
    /// Deleting the alias at this index of the request.
    Deleting(usize),
    /// Committing the deletions.
    Committing,
    /// The answer is given.
    Done,
}

/// What the last data plane call gave.
#[derive(Debug)]
pub enum DeleteAliasesEvent {
    /// Nothing was called yet.
    Begin,
    /// The number of aliases the shortcut has.
    Counted(DataPlaneResult<i64>),
    /// The number of rows the deletion of one alias removed.
    Deleted(DataPlaneResult<u64>),
    /// The transaction was committed.
    Committed(DataPlaneResult<()>),
}

/// What deleting aliases does next.
#[derive(Debug)]
pub enum DeleteAliasesAction {
    /// Count the aliases of the shortcut with this UID.
    Count(String),
    /// Delete, inside the transaction, the alias with this name of the shortcut.
    Delete(String),
    /// Commit the transaction.
    Commit,
    /// Answer with this result; an open transaction is rolled back.
    Respond(DataPlaneResult<Option<Vec<CommittedAlias>>>),
}

/// An event as plain values.
pub enum DeleteAliasesEventView {
    Begin,
    Counted(Result<int, (ErrorKind, Seq<char>)>),
    Deleted(Result<nat, (ErrorKind, Seq<char>)>),
    Committed(Result<(), (ErrorKind, Seq<char>)>),
}

/// An action as plain values: the deleted aliases by their names.
pub enum DeleteAliasesActionView {
    Count(Seq<char>),
    Delete(Seq<char>),
    Commit,
    Respond(Result<Option<Seq<Seq<char>>>, (ErrorKind, Seq<char>)>),
}

pub open spec fn delete_aliases_event_view(event: DeleteAliasesEvent) -> DeleteAliasesEventView {
    match event {
        DeleteAliasesEvent::Begin => DeleteAliasesEventView::Begin,
        DeleteAliasesEvent::Counted(Ok(n)) => DeleteAliasesEventView::Counted(Ok(n as int)),
        DeleteAliasesEvent::Counted(Err(e)) => DeleteAliasesEventView::Counted(Err(error_view(e))),
        DeleteAliasesEvent::Deleted(Ok(n)) => DeleteAliasesEventView::Deleted(Ok(n as nat)),
        DeleteAliasesEvent::Deleted(Err(e)) => DeleteAliasesEventView::Deleted(Err(error_view(e))),
        DeleteAliasesEvent::Committed(Ok(())) => DeleteAliasesEventView::Committed(Ok(())),
        DeleteAliasesEvent::Committed(Err(e)) => DeleteAliasesEventView::Committed(Err(error_view(e))),
    }
}

/// The names of aliases.
pub open spec fn alias_names(aliases: Seq<CommittedAlias>) -> Seq<Seq<char>> {
    aliases.map_values(|a: CommittedAlias| a.name@)
}

/// A list of strings as plain values.
pub open spec fn texts(strings: Seq<String>) -> Seq<Seq<char>> {
    strings.map_values(|s: String| s@)
}

pub open spec fn delete_aliases_action_view(action: DeleteAliasesAction) -> DeleteAliasesActionView {
    match action {
        DeleteAliasesAction::Count(uid) => DeleteAliasesActionView::Count(uid@),
        DeleteAliasesAction::Delete(name) => DeleteAliasesActionView::Delete(name@),
        DeleteAliasesAction::Commit => DeleteAliasesActionView::Commit,
        DeleteAliasesAction::Respond(Ok(None)) => DeleteAliasesActionView::Respond(Ok(None)),
        DeleteAliasesAction::Respond(Ok(Some(aliases))) => DeleteAliasesActionView::Respond(
            Ok(Some(alias_names(aliases@))),
        ),
        DeleteAliasesAction::Respond(Err(e)) => DeleteAliasesActionView::Respond(Err(error_view(e))),
    }
}

/// Whether a stage can arise when deleting `count` aliases, and an event answers the
/// call that it made.
pub open spec fn delete_event_fits(count: nat, stage: DeleteAliasesStage, event: DeleteAliasesEventView) -> bool {
    match stage {
        DeleteAliasesStage::Start => event is Begin,
        DeleteAliasesStage::Counting => event is Counted && count > 0,
        DeleteAliasesStage::Deleting(i) => event is Deleted && i < count,
        DeleteAliasesStage::Committing => event is Committed,
        DeleteAliasesStage::Done => false,
    }
}

/// The next stage and action of deleting the aliases `names` of the shortcut `uid`,
/// given what the last call gave: no names is answered at once; a failed call is the
/// answer; a shortcut without aliases does not exist; one that would keep none is
/// refused; an alias whose deletion removes nothing does not exist; after the last
/// deletion the transaction is committed, and the answer lists the deleted aliases.
pub open spec fn delete_aliases_next(
    uid: Seq<char>,
    names: Seq<Seq<char>>,
    stage: DeleteAliasesStage,
    event: DeleteAliasesEventView,
) -> (DeleteAliasesStage, DeleteAliasesActionView) {
    match event {
        DeleteAliasesEventView::Begin => if names.len() == 0 {
            (DeleteAliasesStage::Done, DeleteAliasesActionView::Respond(Ok(None)))
        } else {
            (DeleteAliasesStage::Counting, DeleteAliasesActionView::Count(uid))
        },
        DeleteAliasesEventView::Counted(Err(e)) => (DeleteAliasesStage::Done, DeleteAliasesActionView::Respond(Err(e))),
        DeleteAliasesEventView::Counted(Ok(existing)) => if existing == 0 {
            (DeleteAliasesStage::Done, DeleteAliasesActionView::Respond(Err((ErrorKind::NotFound, uid))))
        } else if existing <= names.len() {
            (
                DeleteAliasesStage::Done,
                DeleteAliasesActionView::Respond(
                    Err((ErrorKind::FailedPrecondition, delete_aliases_refusal(names.len(), existing))),
                ),
            )
        } else {
            (DeleteAliasesStage::Deleting(0), DeleteAliasesActionView::Delete(names[0]))
        },
        DeleteAliasesEventView::Deleted(Err(e)) => (DeleteAliasesStage::Done, DeleteAliasesActionView::Respond(Err(e))),
        DeleteAliasesEventView::Deleted(Ok(rows)) => {
            let i = match stage {
                DeleteAliasesStage::Deleting(i) => i as int,
                _ => 0,
            };
            if rows == 0 {
                (DeleteAliasesStage::Done, DeleteAliasesActionView::Respond(Err((ErrorKind::NotFound, names[i]))))
            } else if i + 1 < names.len() {
                (
                    DeleteAliasesStage::Deleting((i + 1) as usize),
                    DeleteAliasesActionView::Delete(names[i + 1]),
                )
            } else {
                (DeleteAliasesStage::Committing, DeleteAliasesActionView::Commit)
            }
        },
        DeleteAliasesEventView::Committed(Err(e)) => (
            DeleteAliasesStage::Done,
            DeleteAliasesActionView::Respond(Err(e)),
        ),
        DeleteAliasesEventView::Committed(Ok(())) => (
            DeleteAliasesStage::Done,
            DeleteAliasesActionView::Respond(Ok(Some(names))),
        ),
    }
}

/// One step of deleting the aliases `names` of the shortcut with UID `uid`. The caller
/// performs each action (the deletions in one transaction) and hands back what it gave.
pub fn delete_aliases_step(
    uid: &str,
    names: &Vec<String>,
    stage: DeleteAliasesStage,
    event: DeleteAliasesEvent,
) -> (next: (DeleteAliasesStage, DeleteAliasesAction))
    requires
        names.len() <= i64::MAX,
        delete_event_fits(names.len() as nat, stage, delete_aliases_event_view(event)),
    ensures
        (next.0, delete_aliases_action_view(next.1)) == delete_aliases_next(
            uid@,
            texts(names@),
            stage,
            delete_aliases_event_view(event),
        ),
        next.1 matches DeleteAliasesAction::Respond(Ok(Some(aliases))) ==> committed_aliases_of(
            aliases@,
            uid@,
            names@,
        ),
{
    match event {
        DeleteAliasesEvent::Begin => {
            if skips_deletion(names.len()) {
                (DeleteAliasesStage::Done, DeleteAliasesAction::Respond(Ok(None)))
            } else {
                (DeleteAliasesStage::Counting, DeleteAliasesAction::Count(uid.to_owned()))
            }
        },
        DeleteAliasesEvent::Counted(Err(e)) => (DeleteAliasesStage::Done, DeleteAliasesAction::Respond(Err(e))),
        DeleteAliasesEvent::Counted(Ok(existing)) => match check_delete_aliases(uid, names.len(), existing) {
            Ok(()) => (DeleteAliasesStage::Deleting(0), DeleteAliasesAction::Delete(names[0].clone())),
            Err(e) => (DeleteAliasesStage::Done, DeleteAliasesAction::Respond(Err(e))),
        },
        DeleteAliasesEvent::Deleted(Err(e)) => (DeleteAliasesStage::Done, DeleteAliasesAction::Respond(Err(e))),
        DeleteAliasesEvent::Deleted(Ok(rows)) => {
            let i: usize = match stage {
                DeleteAliasesStage::Deleting(i) => i,
                _ => 0,
            };
            match check_alias_deleted(names[i].as_str(), rows) {
                Err(e) => (DeleteAliasesStage::Done, DeleteAliasesAction::Respond(Err(e))),
                Ok(()) => {
                    if i + 1 < names.len() {
                        (DeleteAliasesStage::Deleting(i + 1), DeleteAliasesAction::Delete(names[i + 1].clone()))
                    } else {
                        (DeleteAliasesStage::Committing, DeleteAliasesAction::Commit)
                    }
                },
            }
        },
        DeleteAliasesEvent::Committed(Err(e)) => (DeleteAliasesStage::Done, DeleteAliasesAction::Respond(Err(e))),
        DeleteAliasesEvent::Committed(Ok(())) => {
            let aliases = committed_aliases(uid, names);
            proof {
                assert(alias_names(aliases@) =~= texts(names@));
            }
            (DeleteAliasesStage::Done, DeleteAliasesAction::Respond(Ok(Some(aliases))))
        },
    }
}

/// The aliases of the destination `uid` in a database that maps each alias name to the
/// UID of its destination.
pub open spec fn alias_set(db: Map<Seq<char>, Seq<char>>, uid: Seq<char>) -> Set<Seq<char>> {
    db.dom().filter(|name: Seq<char>| db[name] == uid)
}

/// What a database answers to a count of the aliases of the destination `uid`.
pub open spec fn alias_count(db: Map<Seq<char>, Seq<char>>, uid: Seq<char>) -> nat {
    alias_set(db, uid).len()
}

/// Whether the destination `uid` has an alias in the database.
pub open spec fn has_alias(db: Map<Seq<char>, Seq<char>>, uid: Seq<char>) -> bool {
    exists|name: Seq<char>| db.dom().contains(name) && #[trigger] db[name] == uid
}

/// The database and the number of removed rows after deleting the alias `name` of the
/// destination `uid`.
pub open spec fn delete_row(db: Map<Seq<char>, Seq<char>>, uid: Seq<char>, name: Seq<char>) -> (
    Map<Seq<char>, Seq<char>>,
    nat,
) {
    if db.dom().contains(name) && db[name] == uid {
        (db.remove(name), 1)
    } else {
        (db, 0)
    }
}

/// Whether the first `k` of `names` are distinct aliases of the destination `uid`.
pub open spec fn all_deletable(uid: Seq<char>, names: Seq<Seq<char>>, db: Map<Seq<char>, Seq<char>>, k: int) -> bool {
    &&& forall|j: int| 0 <= j < k ==> db.dom().contains(#[trigger] names[j]) && db[names[j]] == uid
    &&& forall|j1: int, j2: int| 0 <= j1 < j2 < k ==> #[trigger] names[j1] != #[trigger] names[j2]
}

/// The answer and the committed database after deleting the aliases `names` of the
/// destination `uid` for at most `steps` steps, where `db` is the committed database and
/// `working` the one inside the transaction; none if it takes longer. Every call of the
/// database succeeds; an answer rolls back what was not committed.
pub open spec fn run_delete_aliases(
    uid: Seq<char>,
    names: Seq<Seq<char>>,
    db: Map<Seq<char>, Seq<char>>,
    working: Map<Seq<char>, Seq<char>>,
    stage: DeleteAliasesStage,
    event: DeleteAliasesEventView,
    steps: nat,
) -> Option<(Result<Option<Seq<Seq<char>>>, (ErrorKind, Seq<char>)>, Map<Seq<char>, Seq<char>>)>
    decreases steps,
{
    if steps == 0 {
        None
    } else {
        let (next, action) = delete_aliases_next(uid, names, stage, event);
        match action {
            DeleteAliasesActionView::Respond(result) => Some((result, db)),
            DeleteAliasesActionView::Count(u) => run_delete_aliases(
                uid,
                names,
                db,
                working,
                next,
                DeleteAliasesEventView::Counted(Ok(alias_count(db, u) as int)),
                (steps - 1) as nat,
            ),
            DeleteAliasesActionView::Delete(name) => {
                let (after, rows) = delete_row(working, uid, name);
                run_delete_aliases(
                    uid,
                    names,
                    db,
                    after,
                    next,
                    DeleteAliasesEventView::Deleted(Ok(rows)),
                    (steps - 1) as nat,
                )
            },
            DeleteAliasesActionView::Commit => run_delete_aliases(
                uid,
                names,
                working,
                working,
                next,
                DeleteAliasesEventView::Committed(Ok(())),
                (steps - 1) as nat,
            ),
        }
    }
}

/// The deletions from the alias at index `i` on: they all remove a row exactly when the
/// names are distinct aliases of `uid`; then the commit makes the database lose exactly
/// the named aliases, and otherwise nothing is committed.
proof fn lemma_deleting_run(uid: Seq<char>, names: Seq<Seq<char>>, db: Map<Seq<char>, Seq<char>>, i: int)
    requires
        0 <= i < names.len() <= usize::MAX,
        all_deletable(uid, names, db, i),
    ensures
        ({
            let (after, rows) = delete_row(db.remove_keys(names.take(i).to_set()), uid, names[i]);
            run_delete_aliases(
                uid,
                names,
                db,
                after,
                DeleteAliasesStage::Deleting(i as usize),
                DeleteAliasesEventView::Deleted(Ok(rows)),
                (names.len() - i + 1) as nat,
            ) matches Some((result, committed)) && (result is Ok <==> all_deletable(
                uid,
                names,
                db,
                names.len() as int,
            )) && (result is Ok ==> result == Ok::<_, (ErrorKind, Seq<char>)>(Some(names)) && committed
                == db.remove_keys(names.to_set())) && (result is Err ==> committed == db)
        }),
    decreases names.len() - i,
{
    reveal_with_fuel(run_delete_aliases, 3);
    let w = db.remove_keys(names.take(i).to_set());
    let (after, rows) = delete_row(w, uid, names[i]);
    let name = names[i];
    assert(names.take(i).to_set().contains(name) <==> exists|j: int| 0 <= j < i && names[j] == name) by {
        if names.take(i).to_set().contains(name) {
            assert(names.take(i).contains(name));
            let j = choose|j: int| 0 <= j < names.take(i).len() && #[trigger] names.take(i)[j] == name;
            assert(names[j] == name);
        }
        if exists|j: int| 0 <= j < i && names[j] == name {
            let j = choose|j: int| 0 <= j < i && #[trigger] names[j] == name;
            assert(names.take(i)[j] == name);
            assert(names.take(i).contains(name));
        }
    }
    assert(all_deletable(uid, names, db, i + 1) <==> rows == 1);
    if rows == 1 {
        assert(after =~= db.remove_keys(names.take(i + 1).to_set())) by {
            assert forall|n: Seq<char>| names.take(i + 1).to_set().contains(n) <==> (names.take(i).to_set().contains(n)
                || n == name) by {
                if names.take(i + 1).to_set().contains(n) {
                    assert(names.take(i + 1).contains(n));
                    let j = choose|j: int| 0 <= j < names.take(i + 1).len() && #[trigger] names.take(i + 1)[j] == n;
                    if j < i {
                        assert(names.take(i)[j] == n);
                        assert(names.take(i).contains(n));
                    }
                }
                if names.take(i).to_set().contains(n) {
                    assert(names.take(i).contains(n));
                    let j = choose|j: int| 0 <= j < names.take(i).len() && #[trigger] names.take(i)[j] == n;
                    assert(names.take(i + 1)[j] == n);
                    assert(names.take(i + 1).contains(n));
                }
                if n == name {
                    assert(names.take(i + 1)[i] == n);
                    assert(names.take(i + 1).contains(n));
                }
            }
        }
        if i + 1 < names.len() {
            lemma_deleting_run(uid, names, db, i + 1);
        } else {
            assert(names.take(i + 1) =~= names);
        }
    } else {
        assert(!all_deletable(uid, names, db, names.len() as int)) by {
            if all_deletable(uid, names, db, names.len() as int) {
                assert(all_deletable(uid, names, db, i + 1));
            }
        }
    }
}

/// Every shortcut keeps at least one alias: on a database of aliases, deleting aliases of
/// a shortcut takes at most three steps more than it names aliases; afterwards every
/// destination that had an alias still has one. It succeeds exactly when it names no
/// alias, or names distinct aliases of the shortcut and leaves it at least one; then the
/// database loses exactly the named aliases, and when it fails nothing changes.
pub proof fn lemma_delete_aliases_keeps_an_alias(
    uid: Seq<char>,
    names: Seq<Seq<char>>,
    db: Map<Seq<char>, Seq<char>>,
)
    requires
        db.dom().finite(),
        names.len() <= usize::MAX,
    ensures
        run_delete_aliases(
            uid,
            names,
            db,
            db,
            DeleteAliasesStage::Start,
            DeleteAliasesEventView::Begin,
            names.len() + 3,
        ) matches Some((result, after)) && (forall|v: Seq<char>| #[trigger] has_alias(db, v) ==> has_alias(after, v))
            && (result is Ok <==> names.len() == 0 || (alias_count(db, uid) > names.len() && all_deletable(
            uid,
            names,
            db,
            names.len() as int,
        ))) && (result is Err ==> after == db) && (result matches Ok(Some(deleted)) ==> deleted == names
            && after == db.remove_keys(names.to_set())) && (names.len() == 0 ==> result == Ok::<
            _,
            (ErrorKind, Seq<char>),
        >(None::<Seq<Seq<char>>>)),
{
    reveal_with_fuel(run_delete_aliases, 3);
    if names.len() > 0 && alias_count(db, uid) > names.len() {
        assert(names.take(0).to_set() =~= Set::<Seq<char>>::empty());
        assert(db.remove_keys(Set::<Seq<char>>::empty()) =~= db);
        lemma_deleting_run(uid, names, db, 0);
        if all_deletable(uid, names, db, names.len() as int) {
            let after = db.remove_keys(names.to_set());
            assert forall|v: Seq<char>| #[trigger] has_alias(db, v) implies has_alias(after, v) by {
                if v == uid {
                    let aliases = alias_set(db, uid);
                    let removed = names.to_set();
                    db.dom().lemma_len_filter(|name: Seq<char>| db[name] == uid);
                    names.lemma_cardinality_of_set();
                    if aliases.subset_of(removed) {
                        vstd::set_lib::lemma_len_subset(aliases, removed);
                        assert(false);
                    }
                    let a = choose|a: Seq<char>| aliases.contains(a) && !removed.contains(a);
                    assert(after.dom().contains(a) && after[a] == uid);
                } else {
                    let n = choose|n: Seq<char>| db.dom().contains(n) && #[trigger] db[n] == v;
                    if names.to_set().contains(n) {
                        assert(names.contains(n));
                        let j = choose|j: int| 0 <= j < names.len() && #[trigger] names[j] == n;
                        assert(db[names[j]] == uid);
                    }
                    assert(after.dom().contains(n) && after[n] == v);
                }
            }
        }
    }
}

} // verus!
