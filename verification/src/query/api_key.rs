//! API keys: long-lived credentials of a user, looked up by a hash of the key.

use vstd::prelude::*;

use crate::plan::{
    bare, bare_v, bin, bin_v, col, col_v, column_compared, date, date_v, empty_select_v,
    lemma_contains_concat, lemma_insert_eq,
    lemma_select_eq, on_conflict_update, text, text_of, text_v, uuid, uuid_v, when_v, ActionV,
    BinOp, ColumnRef, ConflictV, DeletePlan, DeleteV, ExprV, Ident, InsertPlan, InsertV, ItemV,
    Order, SelectPlan, SelectV, SqlValue, ValueV,
};
use crate::query::account::opt_str;
use crate::query::{IntoDelete, IntoInsert, IntoSelect};
use crate::schema::ApiKey;
use crate::time::UtcDateTime;

verus! {

/// The filters of an API key listing.
#[derive(Debug)]
pub struct ApiKeySelect<'a> {
    pub id: Option<u128>,
    pub lookup_hash: Option<&'a str>,
    pub user_id: Option<u128>,
    pub cursor: Option<UtcDateTime>,
    pub limit: Option<u64>,
}

impl<'a> Default for ApiKeySelect<'a> {
    fn default() -> (r: Self)
        ensures
            r.id is None,
            r.lookup_hash is None,
            r.user_id is None,
            r.cursor is None,
            r.limit is None,
    {
        ApiKeySelect { id: None, lookup_hash: None, user_id: None, cursor: None, limit: None }
    }
}

/// An API key column.
pub open spec fn api_key_col(c: ApiKey) -> ExprV {
    col_v(Ident::ApiKey(ApiKey::Table), Ident::ApiKey(c))
}

/// `SELECT * FROM api_keys` where each given filter holds, the cursor keeping
/// the keys created after it, oldest first.
pub open spec fn api_key_select_v(p: ApiKeySelect) -> SelectV {
    SelectV {
        items: seq![ItemV::Column(ColumnRef::All)],
        conditions: when_v(p.id, |id: u128| bin_v(api_key_col(ApiKey::Id), BinOp::Eq, uuid_v(id)))
            + when_v(
            opt_str(p.lookup_hash),
            |h: Seq<char>| bin_v(api_key_col(ApiKey::LookupHash), BinOp::Eq, text_v(h)),
        ) + when_v(
            p.user_id,
            |id: u128| bin_v(api_key_col(ApiKey::UserId), BinOp::Eq, uuid_v(id)),
        ) + when_v(
            p.cursor,
            |c: UtcDateTime| bin_v(api_key_col(ApiKey::CreatedAt), BinOp::Gt, date_v(c)),
        ),
        order_by: seq![
            (ColumnRef::TableCol(Ident::ApiKey(ApiKey::Table), Ident::ApiKey(ApiKey::CreatedAt)), Order::Asc),
        ],
        limit: p.limit,
        ..empty_select_v(Ident::ApiKey(ApiKey::Table))
    }
}

/// What an API key listing compares: the key by its own id, by its lookup
/// hash, the owner by the key's user id, and, after a cursor, the keys created
/// after it; nothing else. The listing is oldest first and at most `limit`
/// long.
pub proof fn api_key_listing_conditions(p: ApiKeySelect)
    ensures
        p.id is Some ==> api_key_select_v(p).conditions.contains(
            column_compared(Ident::ApiKey(ApiKey::Table), Ident::ApiKey(ApiKey::Id), BinOp::Eq, ValueV::Uuid(p.id)),
        ),
        p.lookup_hash is Some ==> api_key_select_v(p).conditions.contains(
            column_compared(
                Ident::ApiKey(ApiKey::Table),
                Ident::ApiKey(ApiKey::LookupHash),
                BinOp::Eq,
                ValueV::Text(Some(p.lookup_hash->Some_0@)),
            ),
        ),
        p.user_id is Some ==> api_key_select_v(p).conditions.contains(
            column_compared(
                Ident::ApiKey(ApiKey::Table),
                Ident::ApiKey(ApiKey::UserId),
                BinOp::Eq,
                ValueV::Uuid(p.user_id),
            ),
        ),
        p.cursor is Some ==> api_key_select_v(p).conditions.contains(
            column_compared(
                Ident::ApiKey(ApiKey::Table),
                Ident::ApiKey(ApiKey::CreatedAt),
                BinOp::Gt,
                ValueV::DateTime(p.cursor),
            ),
        ),
        api_key_select_v(p).conditions.len() == (if p.id is Some { 1int } else { 0 })
            + (if p.lookup_hash is Some { 1int } else { 0 }) + (if p.user_id is Some { 1int } else { 0 })
            + (if p.cursor is Some { 1int } else { 0 }),
        api_key_select_v(p).order_by == seq![
            (ColumnRef::TableCol(Ident::ApiKey(ApiKey::Table), Ident::ApiKey(ApiKey::CreatedAt)), Order::Asc),
        ],
        api_key_select_v(p).limit == p.limit,
{
    let a = when_v(p.id, |id: u128| bin_v(api_key_col(ApiKey::Id), BinOp::Eq, uuid_v(id)));
    let b = when_v(opt_str(p.lookup_hash), |h: Seq<char>| bin_v(api_key_col(ApiKey::LookupHash), BinOp::Eq, text_v(h)));
    let c = when_v(p.user_id, |id: u128| bin_v(api_key_col(ApiKey::UserId), BinOp::Eq, uuid_v(id)));
    let d = when_v(p.cursor, |c: UtcDateTime| bin_v(api_key_col(ApiKey::CreatedAt), BinOp::Gt, date_v(c)));
    assert(api_key_select_v(p).conditions == a + b + c + d);
    if p.id is Some {
        lemma_contains_concat(a, b, a[0]);
        lemma_contains_concat(a + b, c, a[0]);
        lemma_contains_concat(a + b + c, d, a[0]);
    }
    if p.lookup_hash is Some {
        lemma_contains_concat(a, b, b[0]);
        lemma_contains_concat(a + b, c, b[0]);
        lemma_contains_concat(a + b + c, d, b[0]);
    }
    if p.user_id is Some {
        lemma_contains_concat(a + b, c, c[0]);
        lemma_contains_concat(a + b + c, d, c[0]);
    }
    if p.cursor is Some {
        lemma_contains_concat(a + b + c, d, d[0]);
    }
}

impl<'a> IntoSelect for ApiKeySelect<'a> {
    fn into_select(self) -> (r: SelectPlan)
        ensures
            r@ == api_key_select_v(self),
    {
        let t = Ident::ApiKey(ApiKey::Table);
        let mut q = SelectPlan::new(t);
        q.column(ColumnRef::All);
        if let Some(id) = self.id {
            q.and_where(bin(col(t, Ident::ApiKey(ApiKey::Id)), BinOp::Eq, uuid(id)));
        }
        if let Some(h) = self.lookup_hash {
            q.and_where(bin(col(t, Ident::ApiKey(ApiKey::LookupHash)), BinOp::Eq, text(h)));
        }
        if let Some(id) = self.user_id {
            q.and_where(bin(col(t, Ident::ApiKey(ApiKey::UserId)), BinOp::Eq, uuid(id)));
        }
        if let Some(c) = self.cursor {
            q.and_where(bin(col(t, Ident::ApiKey(ApiKey::CreatedAt)), BinOp::Gt, date(c)));
        }
        q.order_by(ColumnRef::TableCol(t, Ident::ApiKey(ApiKey::CreatedAt)), Order::Asc);
        if let Some(l) = self.limit {
            q.limit(l);
        }
        proof {
            lemma_select_eq(q@, api_key_select_v(self));
        }
        q
    }
}

/// An API key to store.
#[derive(Debug)]
pub struct ApiKeyInsert<'a> {
    pub id: u128,
    pub lookup_hash: &'a str,
    pub verification_hash: &'a str,
    pub title: &'a str,
    pub preview: &'a str,
    pub user_id: u128,
    pub created_at: UtcDateTime,
    pub updated_at: UtcDateTime,
}

/// The insert of an API key, which on a conflicting id updates the title and
/// the update time.
pub open spec fn api_key_insert_v(k: ApiKeyInsert) -> InsertV {
    InsertV {
        table: Some(Ident::ApiKey(ApiKey::Table)),
        columns: seq![
            Ident::ApiKey(ApiKey::Id),
            Ident::ApiKey(ApiKey::LookupHash),
            Ident::ApiKey(ApiKey::VerificationHash),
            Ident::ApiKey(ApiKey::Title),
            Ident::ApiKey(ApiKey::Preview),
            Ident::ApiKey(ApiKey::CreatedAt),
            Ident::ApiKey(ApiKey::UpdatedAt),
            Ident::ApiKey(ApiKey::UserId),
        ],
        rows: seq![
            seq![
                ValueV::Uuid(Some(k.id)),
                ValueV::Text(Some(k.lookup_hash@)),
                ValueV::Text(Some(k.verification_hash@)),
                ValueV::Text(Some(k.title@)),
                ValueV::Text(Some(k.preview@)),
                ValueV::DateTime(Some(k.created_at)),
                ValueV::DateTime(Some(k.updated_at)),
                ValueV::Uuid(Some(k.user_id)),
            ],
        ],
        on_conflict: Some(
            ConflictV {
                columns: seq![Ident::ApiKey(ApiKey::Id)],
                action: ActionV::Update(
                    seq![Ident::ApiKey(ApiKey::Title), Ident::ApiKey(ApiKey::UpdatedAt)],
                ),
            },
        ),
        returning: None,
    }
}

impl<'a> IntoInsert for ApiKeyInsert<'a> {
    fn into_insert(self) -> (r: InsertPlan)
        ensures
            r@ == api_key_insert_v(self),
            crate::plan::rows_fit(r@),
    {
        let row = vec![
            SqlValue::Uuid(Some(self.id)),
            SqlValue::Text(Some(text_of(self.lookup_hash))),
            SqlValue::Text(Some(text_of(self.verification_hash))),
            SqlValue::Text(Some(text_of(self.title))),
            SqlValue::Text(Some(text_of(self.preview))),
            SqlValue::DateTime(Some(self.created_at)),
            SqlValue::DateTime(Some(self.updated_at)),
            SqlValue::Uuid(Some(self.user_id)),
        ];
        let mut q = InsertPlan {
            table: Some(Ident::ApiKey(ApiKey::Table)),
            columns: vec![
                Ident::ApiKey(ApiKey::Id),
                Ident::ApiKey(ApiKey::LookupHash),
                Ident::ApiKey(ApiKey::VerificationHash),
                Ident::ApiKey(ApiKey::Title),
                Ident::ApiKey(ApiKey::Preview),
                Ident::ApiKey(ApiKey::CreatedAt),
                Ident::ApiKey(ApiKey::UpdatedAt),
                Ident::ApiKey(ApiKey::UserId),
            ],
            rows: Vec::new(),
            on_conflict: Some(
                on_conflict_update(
                    vec![Ident::ApiKey(ApiKey::Id)],
                    vec![Ident::ApiKey(ApiKey::Title), Ident::ApiKey(ApiKey::UpdatedAt)],
                ),
            ),
            returning: None,
        };
        assert(q@.rows =~= seq![]);
        q.values(row);
        proof {
            lemma_insert_eq(q@, api_key_insert_v(self));
        }
        q
    }
}

/// The API key to delete.
#[derive(Debug)]
pub struct ApiKeyDelete {
    pub id: u128,
}

impl IntoDelete for ApiKeyDelete {
    fn into_delete(self) -> (r: DeletePlan)
        ensures
            r@ == (DeleteV {
                table: Ident::ApiKey(ApiKey::Table),
                conditions: seq![bin_v(bare_v(Ident::ApiKey(ApiKey::Id)), BinOp::Eq, uuid_v(self.id))],
            }),
    {
        let mut q = DeletePlan::new(Ident::ApiKey(ApiKey::Table));
        q.and_where(bin(bare(Ident::ApiKey(ApiKey::Id)), BinOp::Eq, uuid(self.id)));
        proof {
            assert(q@.conditions =~= seq![bin_v(bare_v(Ident::ApiKey(ApiKey::Id)), BinOp::Eq, uuid_v(self.id))]);
        }
        q
    }
}

} // verus!
