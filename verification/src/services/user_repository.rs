//! The account store: the one place that answers questions about accounts.
//!
//! [`UserRepository`] answers from rows held in memory. A store that keeps its
//! rows in a database asks the same three questions as [`Query`] values, whose
//! text never holds a caller's value: each value travels beside the text, as
//! a parameter.

use crate::models::dto::{user_models, UserResponse, UserResponseModel};
use crate::models::entities::{account_models, found_model, Account, AccountModel, Timestamp};
use crate::utils::error::AppResult;
use crate::utils::text::texts;
use vstd::prelude::*;

verus! {

/// The role of the accounts that a listing shows.
pub const USER_ROLE: &'static str = "USER";

/// The query for the listing of users.
pub const FIND_ALL_USERS_SQL: &'static str =
    "SELECT * FROM account WHERE role = 'USER' ORDER BY created_at DESC";

/// The query for the account with a user name or email address.
pub const FIND_BY_IDENTIFIER_SQL: &'static str =
    "SELECT * FROM account WHERE username = ? OR email = ?";

/// The query for the account with an id.
pub const FIND_BY_ID_SQL: &'static str = "SELECT * FROM account WHERE id = ?";

/// A question to a database: the text, with a `?` for each value, and the
/// values in the order of their places.
#[derive(Debug, PartialEq, Eq)]
pub struct Query {
    pub sql: &'static str,
    pub params: Vec<String>,
}

/// The question for the listing of users. It has no values.
pub fn find_all_users_query() -> (q: Query)
    ensures
        q.sql@ == FIND_ALL_USERS_SQL@,
        q.params@.len() == 0,
{
    Query { sql: FIND_ALL_USERS_SQL, params: Vec::new() }
}

/// The question for the account that `identifier` names. The text is the
/// same for every identifier; the identifier fills both places.
pub fn find_by_identifier_query(identifier: &str) -> (q: Query)
    ensures
        q.sql@ == FIND_BY_IDENTIFIER_SQL@,
        texts(q.params@) == seq![identifier@, identifier@],
{
    let mut params: Vec<String> = Vec::new();
    params.push(identifier.to_owned());
    params.push(identifier.to_owned());
    assert(texts(params@) =~= seq![identifier@, identifier@]);
    Query { sql: FIND_BY_IDENTIFIER_SQL, params }
}

/// The question for the account with the id `user_id`. The text is the same
/// for every id; the id fills the one place.
pub fn find_by_id_query(user_id: &str) -> (q: Query)
    ensures
        q.sql@ == FIND_BY_ID_SQL@,
        texts(q.params@) == seq![user_id@],
{
    let mut params: Vec<String> = Vec::new();
    params.push(user_id.to_owned());
    assert(texts(params@) =~= seq![user_id@]);
    Query { sql: FIND_BY_ID_SQL, params }
}

/// Whether `identifier` names the account: it is the account's user name or
/// its email address.
pub open spec fn answers_to(account: AccountModel, identifier: Seq<char>) -> bool {
    account.username == identifier || account.email == identifier
}

/// Whether the account is one that a listing shows.
pub open spec fn is_user(account: AccountModel) -> bool {
    account.role == USER_ROLE@
}

/// The first of the rows from position `from` on that is `wanted`.
pub open spec fn first_from(
    rows: Seq<AccountModel>,
    wanted: spec_fn(AccountModel) -> bool,
    from: int,
) -> Option<AccountModel>
    decreases rows.len() - from,
{
    if from < 0 || from >= rows.len() {
        None
    } else if wanted(rows[from]) {
        Some(rows[from])
    } else {
        first_from(rows, wanted, from + 1)
    }
}

/// The account that `identifier` names: the first row that answers to it.
pub open spec fn found_by_identifier(rows: Seq<AccountModel>, identifier: Seq<char>) -> Option<
    AccountModel,
> {
    first_from(rows, |account: AccountModel| answers_to(account, identifier), 0)
}

/// The account with the id `user_id`: the first row that has it.
pub open spec fn found_by_id(rows: Seq<AccountModel>, user_id: Seq<char>) -> Option<
    AccountModel,
> {
    first_from(rows, |account: AccountModel| account.id == user_id, 0)
}

/// Where an account created at `created_at` enters a listing that is newest
/// first, looking from position `from` on: before the first entry that is
/// older than it, and so behind every entry of its own time.
pub open spec fn entry_point(listing: Seq<UserResponseModel>, created_at: Timestamp, from: int) -> int
    decreases listing.len() - from,
{
    if from < 0 || from >= listing.len() || created_at.after(listing[from].created_at) {
        from
    } else {
        entry_point(listing, created_at, from + 1)
    }
}

/// The listing of users: the public face of every row with the role
/// [`USER_ROLE`], newest first. Rows of one and the same time of creation
/// stand in the order of the rows.
pub open spec fn listed_users(rows: Seq<AccountModel>) -> Seq<UserResponseModel>
    decreases rows.len(),
{
    if rows.len() == 0 {
        Seq::empty()
    } else {
        let earlier = listed_users(rows.drop_last());
        let account = rows.last();
        if is_user(account) {
            earlier.insert(entry_point(earlier, account.created_at, 0), account.projection())
        } else {
            earlier
        }
    }
}

/// The public faces of the accounts, one for one and in order.
pub open spec fn projections(rows: Seq<AccountModel>) -> Seq<UserResponseModel> {
    rows.map_values(|account: AccountModel| account.projection())
}

/// The public face of each account, in the order of the accounts.
pub fn project_all(accounts: &Vec<Account>) -> (r: Vec<UserResponse>)
    ensures
        user_models(r@) == projections(account_models(accounts@)),
{
    let mut users: Vec<UserResponse> = Vec::new();
    let mut i: usize = 0;
    while i < accounts.len()
        invariant
            i <= accounts.len(),
            users@.len() == i,
            user_models(users@) == projections(account_models(accounts@)).take(i as int),
        decreases accounts.len() - i,
    {
        let ghost before = user_models(users@);
        let user = accounts[i].to_user_response();
        users.push(user);
        assert(user_models(users@) =~= projections(account_models(accounts@)).take(
            i as int + 1,
        )) by {
            let all = projections(account_models(accounts@));
            assert(user_models(users@).len() == i + 1);
            assert forall|k: int| 0 <= k < i + 1 implies user_models(users@)[k] == all[k] by {
                if k < i {
                    assert(user_models(users@)[k] == before[k]);
                    assert(before[k] == all.take(i as int)[k]);
                }
            }
        }
        i += 1;
    }
    assert(user_models(users@) =~= projections(account_models(accounts@)));
    users
}

/// The public face of an account that may be missing.
pub fn project_found(found: Option<Account>) -> (r: Option<UserResponse>)
    ensures
        match found {
            Some(account) => r matches Some(user) && user@ == account@.projection(),
            None => r is None,
        },
{
    match found {
        Some(account) => Some(account.to_user_response()),
        None => None,
    }
}

/// The account table, held in memory: the rows in the order of the store.
#[derive(Debug, PartialEq, Eq)]
pub struct UserRepository {
    accounts: Vec<Account>,
}

impl View for UserRepository {
    type V = Seq<AccountModel>;

    closed spec fn view(&self) -> Seq<AccountModel> {
        account_models(self.accounts@)
    }
}

impl UserRepository {
    /// A store over the given rows.
    pub fn new(accounts: Vec<Account>) -> (r: Self)
        ensures
            r@ == account_models(accounts@),
    {
        UserRepository { accounts }
    }

    /// The listing of users: every account with the role [`USER_ROLE`] and no
    /// other, as its public face, newest first. This store always answers.
    pub fn find_all_users(&self) -> (r: AppResult<Vec<UserResponse>>)
        ensures
            r matches Ok(users) && user_models(users@) == listed_users(self@),
    {
        let user_role = USER_ROLE.to_owned();
        let mut listing: Vec<UserResponse> = Vec::new();
        let mut i: usize = 0;
        while i < self.accounts.len()
            invariant
                i <= self.accounts.len(),
                user_role@ == USER_ROLE@,
                user_models(listing@) == listed_users(self@.take(i as int)),
            decreases self.accounts.len() - i,
        {
            let account = &self.accounts[i];
            proof {
                let seen = self@.take(i as int + 1);
                assert(seen.drop_last() == self@.take(i as int));
                assert(seen.last() == account@);
            }
            if account.role == user_role {
                let ghost earlier = user_models(listing@);
                let mut at: usize = 0;
                while at < listing.len() && !account.created_at.is_after(&listing[at].created_at)
                    invariant
                        at <= listing.len(),
                        earlier == user_models(listing@),
                        entry_point(earlier, account.created_at, at as int) == entry_point(
                            earlier,
                            account.created_at,
                            0,
                        ),
                    decreases listing.len() - at,
                {
                    at += 1;
                }
                listing.insert(at, account.to_user_response());
                assert(user_models(listing@) =~= earlier.insert(
                    at as int,
                    account@.projection(),
                ));
            }
            i += 1;
        }
        assert(self@.take(i as int) == self@);
        Ok(listing)
    }

    /// The account whose user name or email address is `identifier`, or
    /// nothing where no account has it. Where several have it, the first in
    /// the order of the store is the one. This store always answers: no
    /// account is no error.
    pub fn find_by_identifier(&self, identifier: &str) -> (r: AppResult<Option<Account>>)
        ensures
            r matches Ok(found) && found_model(found) == found_by_identifier(
                self@,
                identifier@,
            ),
    {
        let wanted = identifier.to_owned();
        let ghost answers = |account: AccountModel| answers_to(account, identifier@);
        let mut i: usize = 0;
        while i < self.accounts.len()
            invariant
                i <= self.accounts.len(),
                wanted@ == identifier@,
                answers == |account: AccountModel| answers_to(account, identifier@),
                first_from(self@, answers, i as int) == first_from(self@, answers, 0),
            decreases self.accounts.len() - i,
        {
            let account = &self.accounts[i];
            if account.username == wanted || account.email == wanted {
                return Ok(Some(account.clone()));
            }
            i += 1;
        }
        Ok(None)
    }

    /// The account with the id `user_id`, or nothing where no account has
    /// it. This store always answers: no account is no error.
    pub fn find_by_id(&self, user_id: &str) -> (r: AppResult<Option<Account>>)
        ensures
            r matches Ok(found) && found_model(found) == found_by_id(self@, user_id@),
    {
        let wanted = user_id.to_owned();
        let ghost has_id = |account: AccountModel| account.id == user_id@;
        let mut i: usize = 0;
        while i < self.accounts.len()
            invariant
                i <= self.accounts.len(),
                wanted@ == user_id@,
                has_id == |account: AccountModel| account.id == user_id@,
                first_from(self@, has_id, i as int) == first_from(self@, has_id, 0),
            decreases self.accounts.len() - i,
        {
            let account = &self.accounts[i];
            if account.id == wanted {
                return Ok(Some(account.clone()));
            }
            i += 1;
        }
        Ok(None)
    }
}

/// What [`first_from`] returns: nothing exactly when no row from `from` on is
/// wanted, and else a wanted row before which, from `from` on, none is wanted.
proof fn lemma_first_from(
    rows: Seq<AccountModel>,
    wanted: spec_fn(AccountModel) -> bool,
    from: int,
)
    requires
        0 <= from <= rows.len(),
    ensures
        first_from(rows, wanted, from) is None <==> forall|i: int|
            from <= i < rows.len() ==> !wanted(#[trigger] rows[i]),
        first_from(rows, wanted, from) matches Some(account) ==> exists|i: int|
            from <= i < rows.len() && #[trigger] rows[i] == account && wanted(account)
                && forall|j: int| from <= j < i ==> !wanted(#[trigger] rows[j]),
    decreases rows.len() - from,
{
    if from < rows.len() {
        if wanted(rows[from]) {
            assert(rows[from] == first_from(rows, wanted, from)->Some_0);
        } else {
            lemma_first_from(rows, wanted, from + 1);
            if first_from(rows, wanted, from) is Some {
                let account = first_from(rows, wanted, from)->Some_0;
                let i = choose|i: int|
                    from + 1 <= i < rows.len() && #[trigger] rows[i] == account && wanted(account)
                        && forall|j: int| from + 1 <= j < i ==> !wanted(#[trigger] rows[j]);
                assert forall|j: int| from <= j < i implies !wanted(#[trigger] rows[j]) by {}
                assert(rows[i] == account);
            }
        }
    }
}

/// A lookup by identifier finds nothing exactly when no account of the store
/// has the identifier as its user name or email address.
pub proof fn lookup_by_identifier_absent_iff_unknown(
    rows: Seq<AccountModel>,
    identifier: Seq<char>,
)
    ensures
        found_by_identifier(rows, identifier) is None <==> forall|i: int|
            0 <= i < rows.len() ==> !answers_to(#[trigger] rows[i], identifier),
{
    lemma_first_from(rows, |account: AccountModel| answers_to(account, identifier), 0);
}

/// What a lookup by identifier finds is an account of the store that answers
/// to the identifier, and the first such in the order of the store.
pub proof fn lookup_by_identifier_finds_first(rows: Seq<AccountModel>, identifier: Seq<char>)
    ensures
        found_by_identifier(rows, identifier) matches Some(account) ==> exists|i: int|
            0 <= i < rows.len() && #[trigger] rows[i] == account && answers_to(
                account,
                identifier,
            ) && forall|j: int| 0 <= j < i ==> !answers_to(#[trigger] rows[j], identifier),
{
    lemma_first_from(rows, |account: AccountModel| answers_to(account, identifier), 0);
}

/// A lookup by id finds nothing exactly when no account of the store has the
/// id, and else the first account that has it.
pub proof fn lookup_by_id_finds_first(rows: Seq<AccountModel>, user_id: Seq<char>)
    ensures
        found_by_id(rows, user_id) is None <==> forall|i: int|
            0 <= i < rows.len() ==> (#[trigger] rows[i]).id != user_id,
        found_by_id(rows, user_id) matches Some(account) ==> exists|i: int|
            0 <= i < rows.len() && #[trigger] rows[i] == account && account.id == user_id
                && forall|j: int| 0 <= j < i ==> (#[trigger] rows[j]).id != user_id,
{
    lemma_first_from(rows, |account: AccountModel| account.id == user_id, 0);
}

/// Where [`entry_point`] lands: within the listing, behind entries that are
/// not older than the newcomer only, and before an older entry or at the end.
proof fn lemma_entry_point(listing: Seq<UserResponseModel>, created_at: Timestamp, from: int)
    requires
        0 <= from <= listing.len(),
    ensures
        from <= entry_point(listing, created_at, from) <= listing.len(),
        forall|j: int|
            from <= j < entry_point(listing, created_at, from) ==> !created_at.after(
                (#[trigger] listing[j]).created_at,
            ),
        entry_point(listing, created_at, from) < listing.len() ==> created_at.after(
            listing[entry_point(listing, created_at, from)].created_at,
        ),
    decreases listing.len() - from,
{
    if from < listing.len() && !created_at.after(listing[from].created_at) {
        lemma_entry_point(listing, created_at, from + 1);
    }
}

/// A listing of users shows accounts with the role [`USER_ROLE`] only.
pub proof fn listing_shows_users_only(rows: Seq<AccountModel>)
    ensures
        forall|k: int|
            0 <= k < listed_users(rows).len() ==> (#[trigger] listed_users(rows)[k]).role
                == USER_ROLE@,
    decreases rows.len(),
{
    if rows.len() > 0 {
        let earlier = listed_users(rows.drop_last());
        listing_shows_users_only(rows.drop_last());
        lemma_entry_point(earlier, rows.last().created_at, 0);
    }
}

/// A listing of users is newest first: no entry is later than an entry
/// before it.
pub proof fn listing_is_newest_first(rows: Seq<AccountModel>)
    ensures
        forall|k: int, l: int|
            0 <= k < l < listed_users(rows).len() ==> !(#[trigger] listed_users(
                rows,
            )[l]).created_at.after((#[trigger] listed_users(rows)[k]).created_at),
    decreases rows.len(),
{
    if rows.len() > 0 && is_user(rows.last()) {
        let earlier = listed_users(rows.drop_last());
        let created_at = rows.last().created_at;
        let at = entry_point(earlier, created_at, 0);
        let listing = listed_users(rows);
        listing_is_newest_first(rows.drop_last());
        lemma_entry_point(earlier, created_at, 0);
        assert forall|k: int, l: int| 0 <= k < l < listing.len() implies !(
        #[trigger] listing[l]).created_at.after((#[trigger] listing[k]).created_at) by {
            if l < at {
                assert(listing[l] == earlier[l] && listing[k] == earlier[k]);
            } else if l == at {
                assert(listing[k] == earlier[k]);
            } else if k < at {
                assert(listing[l] == earlier[l - 1] && listing[k] == earlier[k]);
            } else if k == at {
                assert(listing[l] == earlier[l - 1]);
                assert(created_at.after(earlier[at].created_at));
                assert(!earlier[l - 1].created_at.after(earlier[at].created_at));
            } else {
                assert(listing[l] == earlier[l - 1] && listing[k] == earlier[k - 1]);
            }
        }
    } else if rows.len() > 0 {
        listing_is_newest_first(rows.drop_last());
        assert(listed_users(rows) == listed_users(rows.drop_last()));
    }
}

/// How many rows with the role [`USER_ROLE`] have the public face `user`.
pub open spec fn users_with_face(rows: Seq<AccountModel>, user: UserResponseModel) -> nat
    decreases rows.len(),
{
    if rows.len() == 0 {
        0
    } else {
        let rest = users_with_face(rows.drop_last(), user);
        if is_user(rows.last()) && rows.last().projection() == user {
            rest + 1
        } else {
            rest
        }
    }
}

/// A listing of users leaves no user out and shows none twice: each public
/// face stands in it as often as rows with the role [`USER_ROLE`] have it.
pub proof fn listing_shows_every_user_once(rows: Seq<AccountModel>, user: UserResponseModel)
    ensures
        listed_users(rows).to_multiset().count(user) == users_with_face(rows, user),
    decreases rows.len(),
{
    broadcast use vstd::seq_lib::group_to_multiset_ensures;

    if rows.len() == 0 {
        assert(listed_users(rows).to_multiset().len() == 0);
    } else {
        let earlier = listed_users(rows.drop_last());
        listing_shows_every_user_once(rows.drop_last(), user);
        if is_user(rows.last()) {
            let face = rows.last().projection();
            let at = entry_point(earlier, rows.last().created_at, 0);
            let listing = listed_users(rows);
            lemma_entry_point(earlier, rows.last().created_at, 0);
            assert(listing.remove(at) =~= earlier);
            assert(listing[at] == face);
            assert(earlier.to_multiset() == listing.to_multiset().remove(face));
            assert(listing.contains(face));
        }
    }
}

} // verus!
