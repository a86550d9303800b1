//! Sessions: the sign-ins of a user, found by their token.

use vstd::prelude::*;

use crate::import::opt_text;
use crate::plan::{
    bare, bare_v, bin, bin_v, empty_select_v, lemma_insert_eq, lemma_select_eq, text, text_v, BinOp, ColumnRef, DeletePlan, DeleteV, ExprV, Ident, InsertPlan, InsertV, ItemV,
    SelectPlan, SelectV, SqlExpr, SqlValue, ValueV,
};
use crate::query::{IntoDelete, IntoInsert, IntoSelect};
use crate::schema::Session;
use crate::time::UtcDateTime;

verus! {

/// The session with a token.
#[derive(Debug)]
pub struct SessionFindParams {
    pub token: String,
}

impl IntoSelect for SessionFindParams {
    fn into_select(self) -> (r: SelectPlan)
        ensures
            r@ == (SelectV {
                items: seq![ItemV::Column(ColumnRef::All)],
                conditions: seq![bin_v(bare_v(Ident::Session(Session::Token)), BinOp::Eq, text_v(self.token@))],
                ..empty_select_v(Ident::Session(Session::Table))
            }),
    {
        let mut q = SelectPlan::new(Ident::Session(Session::Table));
        q.column(ColumnRef::All);
        q.and_where(bin(bare(Ident::Session(Session::Token)), BinOp::Eq, text(self.token.as_str())));
        proof {
            lemma_select_eq(
                q@,
                SelectV {
                    items: seq![ItemV::Column(ColumnRef::All)],
                    conditions: seq![bin_v(bare_v(Ident::Session(Session::Token)), BinOp::Eq, text_v(self.token@))],
                    ..empty_select_v(Ident::Session(Session::Table))
                },
            );
        }
        q
    }
}

/// A session to store.
#[derive(Debug)]
pub struct SessionCreateParams {
    pub token: String,
    pub user_agent: Option<String>,
    pub ip_address: Option<String>,
    pub expires_at: UtcDateTime,
    pub user_id: String,
}

/// The insert of a session; it has no conflict clause.
pub open spec fn session_insert_v(p: SessionCreateParams) -> InsertV {
    InsertV {
        table: Some(Ident::Session(Session::Table)),
        columns: seq![
            Ident::Session(Session::Token),
            Ident::Session(Session::UserAgent),
            Ident::Session(Session::IpAddress),
            Ident::Session(Session::ExpiresAt),
            Ident::Session(Session::UserId),
        ],
        rows: seq![
            seq![
                ValueV::Text(Some(p.token@)),
                ValueV::Text(opt_text(p.user_agent)),
                ValueV::Text(opt_text(p.ip_address)),
                ValueV::DateTime(Some(p.expires_at)),
                ValueV::Text(Some(p.user_id@)),
            ],
        ],
        on_conflict: None,
        returning: None,
    }
}

impl IntoInsert for SessionCreateParams {
    fn into_insert(self) -> (r: InsertPlan)
        ensures
            r@ == session_insert_v(self),
            crate::plan::rows_fit(r@),
    {
        let ghost p = self;
        let SessionCreateParams { token, user_agent, ip_address, expires_at, user_id } = self;
        let row = vec![
            SqlValue::Text(Some(token)),
            SqlValue::Text(user_agent),
            SqlValue::Text(ip_address),
            SqlValue::DateTime(Some(expires_at)),
            SqlValue::Text(Some(user_id)),
        ];
        let mut q = InsertPlan {
            table: Some(Ident::Session(Session::Table)),
            columns: vec![
                Ident::Session(Session::Token),
                Ident::Session(Session::UserAgent),
                Ident::Session(Session::IpAddress),
                Ident::Session(Session::ExpiresAt),
                Ident::Session(Session::UserId),
            ],
            rows: Vec::new(),
            on_conflict: None,
            returning: None,
        };
        assert(q@.rows =~= seq![]);
        q.values(row);
        proof {
            lemma_insert_eq(q@, session_insert_v(p));
        }
        q
    }
}

/// The sessions to remove: the one with a token, all those of a user, or all
/// that have expired.
#[derive(Debug)]
pub enum SessionDeleteParams {
    Token(String),
    UserId(String),
    Expired,
}

/// The condition of a session removal.
pub open spec fn session_delete_condition(p: SessionDeleteParams) -> ExprV {
    match p {
        SessionDeleteParams::Token(t) => bin_v(bare_v(Ident::Session(Session::Token)), BinOp::Eq, text_v(t@)),
        SessionDeleteParams::UserId(u) => bin_v(bare_v(Ident::Session(Session::UserId)), BinOp::Eq, text_v(u@)),
        SessionDeleteParams::Expired => bin_v(
            bare_v(Ident::Session(Session::ExpiresAt)),
            BinOp::Lt,
            ExprV::CurrentTimestamp,
        ),
    }
}

impl IntoDelete for SessionDeleteParams {
    fn into_delete(self) -> (r: DeletePlan)
        ensures
            r@ == (DeleteV {
                table: Ident::Session(Session::Table),
                conditions: seq![session_delete_condition(self)],
            }),
    {
        let cond = match &self {
            SessionDeleteParams::Token(t) => bin(bare(Ident::Session(Session::Token)), BinOp::Eq, text(t.as_str())),
            SessionDeleteParams::UserId(u) => bin(bare(Ident::Session(Session::UserId)), BinOp::Eq, text(u.as_str())),
            SessionDeleteParams::Expired => bin(
                bare(Ident::Session(Session::ExpiresAt)),
                BinOp::Lt,
                SqlExpr::CurrentTimestamp,
            ),
        };
        let mut q = DeletePlan::new(Ident::Session(Session::Table));
        q.and_where(cond);
        assert(q@.conditions =~= seq![session_delete_condition(self)]);
        q
    }
}

} // verus!
