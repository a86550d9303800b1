//! Jobs: units of background work, with their status and outcome.

use vstd::prelude::*;

use crate::import::opt_text;
use crate::plan::{
    bare, bare_v, bin, bin_v, col, col_v, column_compared, empty_select_v, lemma_contains_concat,
    lemma_insert_eq, lemma_select_eq,
    on_conflict_update, text, text_of, text_v, uuid, uuid_v, when_v, ActionV, BinOp, ColumnRef,
    ConflictV, DeletePlan, DeleteV, ExprV, Ident, InsertPlan, InsertV, ItemV, SelectPlan, SelectV,
    SqlValue, ValueV,
};
use crate::query::account::{opt_str, opt_string};
use crate::query::{IntoDelete, IntoInsert, IntoSelect};
use crate::schema::Job;
use crate::time::UtcDateTime;

verus! {

/// The filters of a job lookup.
#[derive(Debug)]
pub struct JobParams {
    pub id: Option<u128>,
    pub group_identifier: Option<String>,
}

/// A job column.
pub open spec fn job_col(c: Job) -> ExprV {
    col_v(Ident::Job(Job::Table), Ident::Job(c))
}

/// `SELECT * FROM jobs` where each given filter holds.
pub open spec fn job_select_v(p: JobParams) -> SelectV {
    SelectV {
        items: seq![ItemV::Column(ColumnRef::All)],
        conditions: when_v(p.id, |id: u128| bin_v(job_col(Job::Id), BinOp::Eq, uuid_v(id))) + when_v(
            opt_text(p.group_identifier),
            |g: Seq<char>| bin_v(job_col(Job::GroupIdentifier), BinOp::Eq, text_v(g)),
        ),
        ..empty_select_v(Ident::Job(Job::Table))
    }
}

/// What a job lookup compares: the job by its own id and by its group
/// identifier, each where given, and nothing else.
pub proof fn job_lookup_conditions(p: JobParams)
    ensures
        p.id is Some ==> job_select_v(p).conditions.contains(
            column_compared(Ident::Job(Job::Table), Ident::Job(Job::Id), BinOp::Eq, ValueV::Uuid(p.id)),
        ),
        p.group_identifier is Some ==> job_select_v(p).conditions.contains(
            column_compared(
                Ident::Job(Job::Table),
                Ident::Job(Job::GroupIdentifier),
                BinOp::Eq,
                ValueV::Text(Some(p.group_identifier->Some_0@)),
            ),
        ),
        job_select_v(p).conditions.len() == (if p.id is Some { 1int } else { 0 })
            + (if p.group_identifier is Some { 1int } else { 0 }),
{
    let a = when_v(p.id, |id: u128| bin_v(job_col(Job::Id), BinOp::Eq, uuid_v(id)));
    let b = when_v(opt_text(p.group_identifier), |g: Seq<char>| bin_v(job_col(Job::GroupIdentifier), BinOp::Eq, text_v(g)));
    assert(job_select_v(p).conditions == a + b);
    if p.id is Some {
        lemma_contains_concat(a, b, a[0]);
    }
    if p.group_identifier is Some {
        lemma_contains_concat(a, b, b[0]);
    }
}

impl IntoSelect for JobParams {
    fn into_select(self) -> (r: SelectPlan)
        ensures
            r@ == job_select_v(self),
    {
        let t = Ident::Job(Job::Table);
        let mut q = SelectPlan::new(t);
        q.column(ColumnRef::All);
        if let Some(id) = self.id {
            q.and_where(bin(col(t, Ident::Job(Job::Id)), BinOp::Eq, uuid(id)));
        }
        if let Some(g) = &self.group_identifier {
            q.and_where(bin(col(t, Ident::Job(Job::GroupIdentifier)), BinOp::Eq, text(g.as_str())));
        }
        proof {
            lemma_select_eq(q@, job_select_v(self));
        }
        q
    }
}

/// A job to store, with its data as a JSON document.
#[derive(Debug)]
pub struct JobInsert<'a> {
    pub id: u128,
    pub job_type: &'a str,
    pub data: serde_json::Value,
    pub status: &'a str,
    pub group_identifier: Option<&'a str>,
    pub message: Option<&'a str>,
    pub created_at: UtcDateTime,
    pub completed_at: Option<UtcDateTime>,
}

/// The insert of a job, which on a conflicting id updates everything but the
/// creation time.
pub open spec fn job_insert_v(j: JobInsert) -> InsertV {
    InsertV {
        table: Some(Ident::Job(Job::Table)),
        columns: seq![
            Ident::Job(Job::Id),
            Ident::Job(Job::JobType),
            Ident::Job(Job::DataJson),
            Ident::Job(Job::Status),
            Ident::Job(Job::GroupIdentifier),
            Ident::Job(Job::Message),
            Ident::Job(Job::CreatedAt),
            Ident::Job(Job::CompletedAt),
        ],
        rows: seq![
            seq![
                ValueV::Uuid(Some(j.id)),
                ValueV::Text(Some(j.job_type@)),
                ValueV::Json(Some(j.data)),
                ValueV::Text(Some(j.status@)),
                ValueV::Text(opt_str(j.group_identifier)),
                ValueV::Text(opt_str(j.message)),
                ValueV::DateTime(Some(j.created_at)),
                ValueV::DateTime(j.completed_at),
            ],
        ],
        on_conflict: Some(
            ConflictV {
                columns: seq![Ident::Job(Job::Id)],
                action: ActionV::Update(
                    seq![
                        Ident::Job(Job::JobType),
                        Ident::Job(Job::DataJson),
                        Ident::Job(Job::Status),
                        Ident::Job(Job::GroupIdentifier),
                        Ident::Job(Job::Message),
                        Ident::Job(Job::CompletedAt),
                    ],
                ),
            },
        ),
        returning: None,
    }
}

impl<'a> IntoInsert for JobInsert<'a> {
    fn into_insert(self) -> (r: InsertPlan)
        ensures
            r@ == job_insert_v(self),
            crate::plan::rows_fit(r@),
    {
        let ghost j = self;
        let JobInsert { id, job_type, data, status, group_identifier, message, created_at, completed_at } = self;
        let row = vec![
            SqlValue::Uuid(Some(id)),
            SqlValue::Text(Some(text_of(job_type))),
            SqlValue::Json(Some(data)),
            SqlValue::Text(Some(text_of(status))),
            SqlValue::Text(opt_string(group_identifier)),
            SqlValue::Text(opt_string(message)),
            SqlValue::DateTime(Some(created_at)),
            SqlValue::DateTime(completed_at),
        ];
        let mut q = InsertPlan {
            table: Some(Ident::Job(Job::Table)),
            columns: vec![
                Ident::Job(Job::Id),
                Ident::Job(Job::JobType),
                Ident::Job(Job::DataJson),
                Ident::Job(Job::Status),
                Ident::Job(Job::GroupIdentifier),
                Ident::Job(Job::Message),
                Ident::Job(Job::CreatedAt),
                Ident::Job(Job::CompletedAt),
            ],
            rows: Vec::new(),
            on_conflict: Some(
                on_conflict_update(
                    vec![Ident::Job(Job::Id)],
                    vec![
                        Ident::Job(Job::JobType),
                        Ident::Job(Job::DataJson),
                        Ident::Job(Job::Status),
                        Ident::Job(Job::GroupIdentifier),
                        Ident::Job(Job::Message),
                        Ident::Job(Job::CompletedAt),
                    ],
                ),
            ),
            returning: None,
        };
        assert(q@.rows =~= seq![]);
        q.values(row);
        proof {
            lemma_insert_eq(q@, job_insert_v(j));
        }
        q
    }
}

/// The job to delete.
#[derive(Debug)]
pub struct JobDelete {
    pub id: u128,
}

impl IntoDelete for JobDelete {
    fn into_delete(self) -> (r: DeletePlan)
        ensures
            r@ == (DeleteV {
                table: Ident::Job(Job::Table),
                conditions: seq![bin_v(bare_v(Ident::Job(Job::Id)), BinOp::Eq, uuid_v(self.id))],
            }),
    {
        let mut q = DeletePlan::new(Ident::Job(Job::Table));
        q.and_where(bin(bare(Ident::Job(Job::Id)), BinOp::Eq, uuid(self.id)));
        assert(q@.conditions =~= seq![bin_v(bare_v(Ident::Job(Job::Id)), BinOp::Eq, uuid_v(self.id))]);
        q
    }
}

} // verus!
