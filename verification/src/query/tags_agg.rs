//! The tags of each listed item as one JSON array, joined from a link table.

use vstd::prelude::*;

use crate::plan::{
    bin_v, coalesce, col, col_v, cols_eq, custom, empty_select_v, lemma_select_eq, target_v,
    Alias, BinOp, ColumnRef, CustomSql, ExprV, Ident, ItemV, JoinKind, JoinTarget, JoinV,
    SelectPlan, SelectV, SqlExpr, TargetV,
};
use crate::query::Dialect;
use crate::schema::Tag;

verus! {

/// The aggregate of the tags joined as `t`, as the dialect writes it.
pub open spec fn tags_agg_sql(dialect: Dialect) -> CustomSql {
    match dialect {
        Dialect::Postgres => CustomSql::PostgresTagsAgg,
        Dialect::Sqlite => CustomSql::SqliteTagsAgg,
    }
}

/// `COALESCE(tags_agg.tags, '[]') AS tags`.
pub open spec fn tags_item_v() -> ItemV {
    ItemV::ExprAs(
        ExprV::Coalesce(
            seq![
                col_v(Ident::Alias(Alias::TagsAgg), Ident::Alias(Alias::Tags)),
                ExprV::Custom(CustomSql::EmptyJsonArray),
            ],
        ),
        Ident::Alias(Alias::Tags),
    )
}

/// `LEFT JOIN (SELECT link.owner, <aggregate> AS tags FROM link INNER JOIN tags
/// AS t ON t.id = link.tag GROUP BY link.owner) AS tags_agg ON tags_agg.owner =
/// owner_table.owner_id`.
pub open spec fn tags_join_v(
    link: Ident,
    link_owner: Ident,
    link_tag: Ident,
    owner_table: Ident,
    owner_id: Ident,
    dialect: Dialect,
) -> JoinV {
    JoinV {
        kind: JoinKind::Left,
        target: TargetV::Subquery(
            Box::new(
                SelectV {
                    items: seq![
                        ItemV::Column(ColumnRef::TableCol(link, link_owner)),
                        ItemV::ExprAs(ExprV::Custom(tags_agg_sql(dialect)), Ident::Alias(Alias::Tags)),
                    ],
                    joins: seq![
                        JoinV {
                            kind: JoinKind::Inner,
                            target: TargetV::TableAs(Ident::Tag(Tag::Table), Ident::Alias(Alias::T)),
                            on: bin_v(col_v(Ident::Alias(Alias::T), Ident::Tag(Tag::Id)), BinOp::Eq, col_v(link, link_tag)),
                        },
                    ],
                    group_by: seq![ColumnRef::TableCol(link, link_owner)],
                    ..empty_select_v(link)
                },
            ),
            Ident::Alias(Alias::TagsAgg),
        ),
        on: bin_v(col_v(Ident::Alias(Alias::TagsAgg), link_owner), BinOp::Eq, col_v(owner_table, owner_id)),
    }
}

/// `COALESCE(tags_agg.tags, '[]')`.
pub fn tags_expr() -> (r: SqlExpr)
    ensures
        tags_item_v() == ItemV::ExprAs(r@, Ident::Alias(Alias::Tags)),
{
    coalesce(col(Ident::Alias(Alias::TagsAgg), Ident::Alias(Alias::Tags)), custom(CustomSql::EmptyJsonArray))
}

/// The join of [`tags_join_v`]: its target and its condition.
pub fn tags_join(
    link: Ident,
    link_owner: Ident,
    link_tag: Ident,
    owner_table: Ident,
    owner_id: Ident,
    dialect: Dialect,
) -> (r: (JoinTarget, SqlExpr))
    ensures
        target_v(r.0) == tags_join_v(link, link_owner, link_tag, owner_table, owner_id, dialect).target,
        r.1@ == tags_join_v(link, link_owner, link_tag, owner_table, owner_id, dialect).on,
{
    let t = Ident::Alias(Alias::T);
    let agg = match dialect {
        Dialect::Postgres => CustomSql::PostgresTagsAgg,
        Dialect::Sqlite => CustomSql::SqliteTagsAgg,
    };
    let mut sub = SelectPlan::new(link);
    sub.column(ColumnRef::TableCol(link, link_owner));
    sub.expr_as(custom(agg), Ident::Alias(Alias::Tags));
    sub.join(JoinKind::Inner, JoinTarget::TableAs(Ident::Tag(Tag::Table), t), cols_eq(t, Ident::Tag(Tag::Id), link, link_tag));
    sub.group_by_col(ColumnRef::TableCol(link, link_owner));
    proof {
        match tags_join_v(link, link_owner, link_tag, owner_table, owner_id, dialect).target {
            TargetV::Subquery(b, _) => lemma_select_eq(sub@, *b),
            _ => {},
        }
    }
    let on = cols_eq(Ident::Alias(Alias::TagsAgg), link_owner, owner_table, owner_id);
    (JoinTarget::Subquery(Box::new(sub), Ident::Alias(Alias::TagsAgg)), on)
}

} // verus!
