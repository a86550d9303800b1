//! Users: the people who own everything else.

use vstd::prelude::*;

use crate::import::opt_text;
use crate::plan::{
    bin, bin_v, col, col_v, column_compared, empty_select_v, lemma_contains_concat, lemma_insert_eq,
    lemma_select_eq, on_conflict_update,
    text, text_of, text_v, uuid, uuid_v, when_v, ActionV, BinOp, ColumnRef, ConflictV, ExprV,
    Ident, InsertPlan, InsertV, ItemV, SelectPlan, SelectV, SqlValue, ValueV,
};
use crate::query::account::{opt_str, opt_string};
use crate::query::{IntoInsert, IntoSelect};
use crate::schema::User;
use crate::time::UtcDateTime;

verus! {

/// The filters of a user lookup.
#[derive(Debug)]
pub struct UserParams {
    pub id: Option<u128>,
    pub external_id: Option<String>,
}

/// A user column.
pub open spec fn user_col(c: User) -> ExprV {
    col_v(Ident::User(User::Table), Ident::User(c))
}

/// `SELECT * FROM users` where each given filter holds.
pub open spec fn user_select_v(p: UserParams) -> SelectV {
    SelectV {
        items: seq![ItemV::Column(ColumnRef::All)],
        conditions: when_v(p.id, |id: u128| bin_v(user_col(User::Id), BinOp::Eq, uuid_v(id)))
            + when_v(
            opt_text(p.external_id),
            |e: Seq<char>| bin_v(user_col(User::ExternalId), BinOp::Eq, text_v(e)),
        ),
        ..empty_select_v(Ident::User(User::Table))
    }
}

/// What a user lookup compares: the user by its own id and by its external id,
/// each where given, and nothing else.
pub proof fn user_lookup_conditions(p: UserParams)
    ensures
        p.id is Some ==> user_select_v(p).conditions.contains(
            column_compared(Ident::User(User::Table), Ident::User(User::Id), BinOp::Eq, ValueV::Uuid(p.id)),
        ),
        p.external_id is Some ==> user_select_v(p).conditions.contains(
            column_compared(
                Ident::User(User::Table),
                Ident::User(User::ExternalId),
                BinOp::Eq,
                ValueV::Text(Some(p.external_id->Some_0@)),
            ),
        ),
        user_select_v(p).conditions.len() == (if p.id is Some { 1int } else { 0 })
            + (if p.external_id is Some { 1int } else { 0 }),
{
    let a = when_v(p.id, |id: u128| bin_v(user_col(User::Id), BinOp::Eq, uuid_v(id)));
    let b = when_v(opt_text(p.external_id), |e: Seq<char>| bin_v(user_col(User::ExternalId), BinOp::Eq, text_v(e)));
    assert(user_select_v(p).conditions == a + b);
    if p.id is Some {
        lemma_contains_concat(a, b, a[0]);
    }
    if p.external_id is Some {
        lemma_contains_concat(a, b, b[0]);
    }
}

impl IntoSelect for UserParams {
    fn into_select(self) -> (r: SelectPlan)
        ensures
            r@ == user_select_v(self),
    {
        let t = Ident::User(User::Table);
        let mut q = SelectPlan::new(t);
        q.column(ColumnRef::All);
        if let Some(id) = self.id {
            q.and_where(bin(col(t, Ident::User(User::Id)), BinOp::Eq, uuid(id)));
        }
        if let Some(e) = &self.external_id {
            q.and_where(bin(col(t, Ident::User(User::ExternalId)), BinOp::Eq, text(e.as_str())));
        }
        proof {
            lemma_select_eq(q@, user_select_v(self));
        }
        q
    }
}

/// A user to store.
#[derive(Debug)]
pub struct UserInsert<'a> {
    pub id: u128,
    pub external_id: &'a str,
    pub email: Option<&'a str>,
    pub display_name: Option<&'a str>,
    pub picture_url: Option<&'a str>,
    pub created_at: UtcDateTime,
    pub updated_at: UtcDateTime,
}

/// The insert of a user, which on a conflicting external id updates the
/// profile and the update time.
pub open spec fn user_insert_v(u: UserInsert) -> InsertV {
    InsertV {
        table: Some(Ident::User(User::Table)),
        columns: seq![
            Ident::User(User::Id),
            Ident::User(User::ExternalId),
            Ident::User(User::Email),
            Ident::User(User::DisplayName),
            Ident::User(User::PictureUrl),
            Ident::User(User::CreatedAt),
            Ident::User(User::UpdatedAt),
        ],
        rows: seq![
            seq![
                ValueV::Uuid(Some(u.id)),
                ValueV::Text(Some(u.external_id@)),
                ValueV::Text(opt_str(u.email)),
                ValueV::Text(opt_str(u.display_name)),
                ValueV::Text(opt_str(u.picture_url)),
                ValueV::DateTime(Some(u.created_at)),
                ValueV::DateTime(Some(u.updated_at)),
            ],
        ],
        on_conflict: Some(
            ConflictV {
                columns: seq![Ident::User(User::ExternalId)],
                action: ActionV::Update(
                    seq![
                        Ident::User(User::Email),
                        Ident::User(User::DisplayName),
                        Ident::User(User::PictureUrl),
                        Ident::User(User::UpdatedAt),
                    ],
                ),
            },
        ),
        returning: None,
    }
}

impl<'a> IntoInsert for UserInsert<'a> {
    fn into_insert(self) -> (r: InsertPlan)
        ensures
            r@ == user_insert_v(self),
            crate::plan::rows_fit(r@),
    {
        let row = vec![
            SqlValue::Uuid(Some(self.id)),
            SqlValue::Text(Some(text_of(self.external_id))),
            SqlValue::Text(opt_string(self.email)),
            SqlValue::Text(opt_string(self.display_name)),
            SqlValue::Text(opt_string(self.picture_url)),
            SqlValue::DateTime(Some(self.created_at)),
            SqlValue::DateTime(Some(self.updated_at)),
        ];
        let mut q = InsertPlan {
            table: Some(Ident::User(User::Table)),
            columns: vec![
                Ident::User(User::Id),
                Ident::User(User::ExternalId),
                Ident::User(User::Email),
                Ident::User(User::DisplayName),
                Ident::User(User::PictureUrl),
                Ident::User(User::CreatedAt),
                Ident::User(User::UpdatedAt),
            ],
            rows: Vec::new(),
            on_conflict: Some(
                on_conflict_update(
                    vec![Ident::User(User::ExternalId)],
                    vec![
                        Ident::User(User::Email),
                        Ident::User(User::DisplayName),
                        Ident::User(User::PictureUrl),
                        Ident::User(User::UpdatedAt),
                    ],
                ),
            ),
            returning: None,
        };
        assert(q@.rows =~= seq![]);
        q.values(row);
        proof {
            lemma_insert_eq(q@, user_insert_v(self));
        }
        q
    }
}

} // verus!
