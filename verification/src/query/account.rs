//! Accounts: the sign-in identities of a user.

use vstd::prelude::*;

use crate::import::opt_text;
use crate::plan::{
    bin, bin_v, col, col_v, column_compared, empty_select_v, lemma_contains_concat,
    on_conflict_update, text, text_of, text_v,
    uuid, uuid_v, when_v, BinOp, ColumnRef, ConflictV, ActionV, ExprV, Ident, InsertPlan,
    InsertV, ItemV, lemma_insert_eq, lemma_select_eq, SelectPlan, SelectV, SqlValue, ValueV,
};
use crate::query::{IntoInsert, IntoSelect};
use crate::schema::Account;
use crate::time::UtcDateTime;

verus! {

/// The filters of an account lookup.
#[derive(Debug)]
pub struct AccountParams {
    pub id: Option<u128>,
    pub sub: Option<String>,
    pub provider: Option<String>,
}

/// An account column.
pub open spec fn account_col(c: Account) -> ExprV {
    col_v(Ident::Account(Account::Table), Ident::Account(c))
}

/// `SELECT * FROM accounts` where each given parameter equals its column.
pub open spec fn account_select_v(p: AccountParams) -> SelectV {
    SelectV {
        items: seq![ItemV::Column(ColumnRef::All)],
        conditions: when_v(p.id, |id: u128| bin_v(account_col(Account::Id), BinOp::Eq, uuid_v(id)))
            + when_v(
            opt_text(p.sub),
            |s: Seq<char>| bin_v(account_col(Account::Sub), BinOp::Eq, text_v(s)),
        ) + when_v(
            opt_text(p.provider),
            |s: Seq<char>| bin_v(account_col(Account::Provider), BinOp::Eq, text_v(s)),
        ),
        ..empty_select_v(Ident::Account(Account::Table))
    }
}

/// What an account lookup compares: the account by its own id, by its subject
/// and by its provider, each where given, and nothing else.
pub proof fn account_lookup_conditions(p: AccountParams)
    ensures
        p.id is Some ==> account_select_v(p).conditions.contains(
            column_compared(Ident::Account(Account::Table), Ident::Account(Account::Id), BinOp::Eq, ValueV::Uuid(p.id)),
        ),
        p.sub is Some ==> account_select_v(p).conditions.contains(
            column_compared(
                Ident::Account(Account::Table),
                Ident::Account(Account::Sub),
                BinOp::Eq,
                ValueV::Text(Some(p.sub->Some_0@)),
            ),
        ),
        p.provider is Some ==> account_select_v(p).conditions.contains(
            column_compared(
                Ident::Account(Account::Table),
                Ident::Account(Account::Provider),
                BinOp::Eq,
                ValueV::Text(Some(p.provider->Some_0@)),
            ),
        ),
        account_select_v(p).conditions.len() == (if p.id is Some { 1int } else { 0 })
            + (if p.sub is Some { 1int } else { 0 }) + (if p.provider is Some { 1int } else { 0 }),
{
    let a = when_v(p.id, |id: u128| bin_v(account_col(Account::Id), BinOp::Eq, uuid_v(id)));
    let b = when_v(opt_text(p.sub), |s: Seq<char>| bin_v(account_col(Account::Sub), BinOp::Eq, text_v(s)));
    let c = when_v(opt_text(p.provider), |s: Seq<char>| bin_v(account_col(Account::Provider), BinOp::Eq, text_v(s)));
    assert(account_select_v(p).conditions == a + b + c);
    if p.id is Some {
        lemma_contains_concat(a, b, a[0]);
        lemma_contains_concat(a + b, c, a[0]);
    }
    if p.sub is Some {
        lemma_contains_concat(a, b, b[0]);
        lemma_contains_concat(a + b, c, b[0]);
    }
    if p.provider is Some {
        lemma_contains_concat(a + b, c, c[0]);
    }
}

impl IntoSelect for AccountParams {
    fn into_select(self) -> (r: SelectPlan)
        ensures
            r@ == account_select_v(self),
    {
        let t = Ident::Account(Account::Table);
        let mut q = SelectPlan::new(t);
        q.column(ColumnRef::All);
        if let Some(id) = self.id {
            q.and_where(bin(col(t, Ident::Account(Account::Id)), BinOp::Eq, uuid(id)));
        }
        if let Some(sub) = &self.sub {
            q.and_where(bin(col(t, Ident::Account(Account::Sub)), BinOp::Eq, text(sub.as_str())));
        }
        if let Some(provider) = &self.provider {
            q.and_where(
                bin(col(t, Ident::Account(Account::Provider)), BinOp::Eq, text(provider.as_str())),
            );
        }
        proof {
            lemma_select_eq(q@, account_select_v(self));
        }
        q
    }
}

/// An account to store.
#[derive(Debug)]
pub struct AccountInsert<'a> {
    pub id: u128,
    pub sub: &'a str,
    pub provider: &'a str,
    pub password_hash: Option<&'a str>,
    pub user_id: u128,
    pub created_at: UtcDateTime,
    pub updated_at: UtcDateTime,
}

/// The text of an optional string slice.
pub open spec fn opt_str(s: Option<&str>) -> Option<Seq<char>> {
    match s {
        Some(t) => Some(t@),
        None => None,
    }
}

/// A copy of an optional string slice.
pub fn opt_string(s: Option<&str>) -> (r: Option<String>)
    ensures
        opt_text(r) == opt_str(s),
{
    match s {
        Some(t) => Some(text_of(t)),
        None => None,
    }
}

/// The insert of an account, which on a conflicting id updates the sub,
/// provider, password hash and update time.
pub open spec fn account_insert_v(a: AccountInsert) -> InsertV {
    InsertV {
        table: Some(Ident::Account(Account::Table)),
        columns: seq![
            Ident::Account(Account::Id),
            Ident::Account(Account::Sub),
            Ident::Account(Account::Provider),
            Ident::Account(Account::PasswordHash),
            Ident::Account(Account::UserId),
            Ident::Account(Account::CreatedAt),
            Ident::Account(Account::UpdatedAt),
        ],
        rows: seq![
            seq![
                ValueV::Uuid(Some(a.id)),
                ValueV::Text(Some(a.sub@)),
                ValueV::Text(Some(a.provider@)),
                ValueV::Text(opt_str(a.password_hash)),
                ValueV::Uuid(Some(a.user_id)),
                ValueV::DateTime(Some(a.created_at)),
                ValueV::DateTime(Some(a.updated_at)),
            ],
        ],
        on_conflict: Some(
            ConflictV {
                columns: seq![Ident::Account(Account::Id)],
                action: ActionV::Update(
                    seq![
                        Ident::Account(Account::Sub),
                        Ident::Account(Account::Provider),
                        Ident::Account(Account::PasswordHash),
                        Ident::Account(Account::UpdatedAt),
                    ],
                ),
            },
        ),
        returning: None,
    }
}

impl<'a> IntoInsert for AccountInsert<'a> {
    fn into_insert(self) -> (r: InsertPlan)
        ensures
            r@ == account_insert_v(self),
            crate::plan::rows_fit(r@),
    {
        let row = vec![
            SqlValue::Uuid(Some(self.id)),
            SqlValue::Text(Some(text_of(self.sub))),
            SqlValue::Text(Some(text_of(self.provider))),
            SqlValue::Text(opt_string(self.password_hash)),
            SqlValue::Uuid(Some(self.user_id)),
            SqlValue::DateTime(Some(self.created_at)),
            SqlValue::DateTime(Some(self.updated_at)),
        ];
        let mut q = InsertPlan {
            table: Some(Ident::Account(Account::Table)),
            columns: vec![
                Ident::Account(Account::Id),
                Ident::Account(Account::Sub),
                Ident::Account(Account::Provider),
                Ident::Account(Account::PasswordHash),
                Ident::Account(Account::UserId),
                Ident::Account(Account::CreatedAt),
                Ident::Account(Account::UpdatedAt),
            ],
            rows: Vec::new(),
            on_conflict: Some(
                on_conflict_update(
                    vec![Ident::Account(Account::Id)],
                    vec![
                        Ident::Account(Account::Sub),
                        Ident::Account(Account::Provider),
                        Ident::Account(Account::PasswordHash),
                        Ident::Account(Account::UpdatedAt),
                    ],
                ),
            ),
            returning: None,
        };
        assert(q@.rows =~= seq![]);
        q.values(row);
        proof {
            lemma_insert_eq(q@, account_insert_v(self));
        }
        q
    }
}

} // verus!
