use crate::db::{has_user, user_count, Db};
use crate::reducers::{user_created, ErrorKind, ReducerError};
use crate::schema::{Identity, User, UserRole};
use crate::totals::items_total;
use vstd::prelude::*;

verus! {

/// In every store the operations maintain, each persisted sale's total is the saturating
/// sum of `quantity * price` over its item rows.
pub proof fn lemma_sale_totals_match_items(db: Db)
    requires
        db.wf(),
    ensures
        forall|i: int|
            0 <= i < db.sales@.rows.len() ==> #[trigger] db.sales@.rows[i].total == items_total(
                db.sale_items@.rows,
                db.sales@.rows[i].id,
            ),
{
}

/// A principal without a user row registers once: a first `create_user` succeeds, a
/// second one fails with a conflict, and exactly one row is keyed by the principal.
pub proof fn lemma_user_registered_once(
    db0: Db,
    db1: Db,
    db2: Db,
    sender: Identity,
    username1: String,
    role1: UserRole,
    outlet1: Option<u64>,
    r1: Result<(), ReducerError>,
    username2: String,
    role2: UserRole,
    outlet2: Option<u64>,
    r2: Result<(), ReducerError>,
)
    requires
        db0.wf(),
        !has_user(db0.users@, sender),
        user_created(db0, db1, sender, username1, role1, outlet1, r1),
        user_created(db1, db2, sender, username2, role2, outlet2, r2),
    ensures
        r1 is Ok,
        r2 == Err::<(), ReducerError>(ReducerError::UserExists),
        r2->Err_0.spec_kind() == ErrorKind::Conflict,
        user_count(db2.users@, sender) == 1,
{
    lemma_no_user_rows(db0.users@, sender);
    let n = db0.users@.len() as int;
    assert(db1.users@[n].id == sender);
    assert(has_user(db1.users@, sender));
    assert(db1.users@.drop_last() == db0.users@);
}

/// A principal with no user row has a count of zero.
pub proof fn lemma_no_user_rows(users: Seq<User>, id: Identity)
    requires
        !has_user(users, id),
    ensures
        user_count(users, id) == 0,
    decreases users.len(),
{
    if users.len() > 0 {
        assert(users.last() == users[users.len() - 1]);
        assert(!has_user(users.drop_last(), id)) by {
            if has_user(users.drop_last(), id) {
                let i = choose|i: int| 0 <= i < users.drop_last().len() && #[trigger] users.drop_last()[i].id == id;
                assert(users[i].id == id);
            }
        }
        lemma_no_user_rows(users.drop_last(), id);
    }
}

} // verus!
