//! The statements on the `image` table: their text, rendered for Postgres by
//! `sea_query` with numbered placeholders, and the values bound to those
//! placeholders, in order.

use vstd::prelude::*;
use crate::record::{texts_view, ImageStruct};
use crate::service::text_of;

verus! {

/// The table and its columns.
#[derive(Clone, Copy, Debug, PartialEq, Eq, Structural)]
pub enum Image {
    Table,
    Uuid,
    FileName,
    Owner,
}

pub open spec fn iden_text(i: Image) -> Seq<char> {
    match i {
        Image::Table => "image"@,
        Image::Uuid => "uuid"@,
        Image::FileName => "file_name"@,
        Image::Owner => "owner"@,
    }
}

impl Image {
    /// The name of the table or column, as it stands in the schema.
    pub fn unquoted(&self) -> (r: &'static str)
        ensures
            r@ == iden_text(*self),
    {
        match self {
            Image::Table => "image",
            Image::Uuid => "uuid",
            Image::FileName => "file_name",
            Image::Owner => "owner",
        }
    }
}

/// A value bound to a placeholder.
#[derive(Debug)]
pub enum Param {
    /// An identifier, bound as a UUID.
    Id(u128),
    /// A text value.
    Text(String),
}

pub enum ParamView {
    Id(u128),
    Text(Seq<char>),
}

impl View for Param {
    type V = ParamView;

    open spec fn view(&self) -> ParamView {
        match self {
            Param::Id(v) => ParamView::Id(*v),
            Param::Text(s) => ParamView::Text(s@),
        }
    }
}

/// A statement's text and the values of its placeholders `$1`, `$2`, ...
#[derive(Debug)]
pub struct Statement {
    pub sql: String,
    pub params: Vec<Param>,
}

pub open spec fn params_view(p: Seq<Param>) -> Seq<ParamView> {
    p.map_values(|x: Param| x@)
}

/// `CREATE TABLE IF NOT EXISTS` of a table whose key column holds UUIDs and
/// whose two other columns hold text, none of them null.
pub uninterp spec fn create_table_sql(
    table: Seq<char>,
    key: Seq<char>,
    name: Seq<char>,
    owner: Seq<char>,
) -> Seq<char>;

/// `INSERT` of one row into the three columns, from `$1`, `$2`, `$3`.
pub uninterp spec fn insert_sql(
    table: Seq<char>,
    key: Seq<char>,
    name: Seq<char>,
    owner: Seq<char>,
) -> Seq<char>;

/// `SELECT *` of the rows whose key equals `$1`.
pub uninterp spec fn select_sql(table: Seq<char>, key: Seq<char>) -> Seq<char>;

/// `DELETE` of the rows whose key equals `$1`.
pub uninterp spec fn delete_sql(table: Seq<char>, key: Seq<char>) -> Seq<char>;

/// `UPDATE` that sets the columns from `$1` on, in order, in the rows whose
/// key equals the placeholder after them.
pub uninterp spec fn update_sql(table: Seq<char>, columns: Seq<Seq<char>>, key: Seq<char>) -> Seq<char>;

/// Relies on `sea_query::Table::create` with `if_not_exists` and three
/// `ColumnDef`s, rendered by `PostgresQueryBuilder`: the text depends on the
/// names alone.
#[verifier::external_body]
fn render_create_table(table: &str, key: &str, name: &str, owner: &str) -> (r: String)
    ensures
        r@ == create_table_sql(table@, key@, name@, owner@),
{
    sea_query::Table::create()
        .table(sea_query::Alias::new(table))
        .if_not_exists()
        .col(sea_query::ColumnDef::new(sea_query::Alias::new(key)).uuid().not_null().primary_key())
        .col(sea_query::ColumnDef::new(sea_query::Alias::new(name)).string().not_null())
        .col(sea_query::ColumnDef::new(sea_query::Alias::new(owner)).string().not_null())
        .build(sea_query::PostgresQueryBuilder)
}

/// Relies on `sea_query::Query::insert` rendered by `PostgresQueryBuilder`
/// with `build`: the values become placeholders, so the text depends on the
/// names alone.
#[verifier::external_body]
fn render_insert(table: &str, key: &str, name: &str, owner: &str, record: &ImageStruct) -> (r: String)
    ensures
        r@ == insert_sql(table@, key@, name@, owner@),
{
    sea_query::Query::insert()
        .into_table(sea_query::Alias::new(table))
        .columns([sea_query::Alias::new(key), sea_query::Alias::new(name), sea_query::Alias::new(owner)])
        .values_panic([
            uuid::Uuid::from_u128(record.uuid).into(),
            record.file_name.as_str().into(),
            record.owner.as_str().into(),
        ])
        .build(sea_query::PostgresQueryBuilder)
        .0
}

/// Relies on `sea_query::Query::select` of `Asterisk` with one `and_where`
/// on the key, rendered by `PostgresQueryBuilder` with `build`.
#[verifier::external_body]
fn render_select(table: &str, key: &str, id: u128) -> (r: String)
    ensures
        r@ == select_sql(table@, key@),
{
    sea_query::Query::select()
        .column(sea_query::Asterisk)
        .from(sea_query::Alias::new(table))
        .and_where(sea_query::Expr::col(sea_query::Alias::new(key)).eq(uuid::Uuid::from_u128(id)))
        .build(sea_query::PostgresQueryBuilder)
        .0
}

/// Relies on `sea_query::Query::delete` with one `and_where` on the key,
/// rendered by `PostgresQueryBuilder` with `build`.
#[verifier::external_body]
fn render_delete(table: &str, key: &str, id: u128) -> (r: String)
    ensures
        r@ == delete_sql(table@, key@),
{
    sea_query::Query::delete()
        .from_table(sea_query::Alias::new(table))
        .and_where(sea_query::Expr::col(sea_query::Alias::new(key)).eq(uuid::Uuid::from_u128(id)))
        .build(sea_query::PostgresQueryBuilder)
        .0
}

/// Relies on `sea_query::Query::update` with `values` and one `and_where` on
/// the key, rendered by `PostgresQueryBuilder` with `build`: the assignments
/// come first, in the given order, then the condition.
#[verifier::external_body]
fn render_update(table: &str, columns: &Vec<String>, values: &Vec<String>, key: &str, id: u128) -> (r: String)
    requires
        columns.len() == values.len(),
    ensures
        r@ == update_sql(table@, texts_view(columns@), key@),
{
    sea_query::Query::update()
        .table(sea_query::Alias::new(table))
        .values(columns.iter().zip(values.iter()).map(|(c, v)| (sea_query::Alias::new(c.as_str()), v.as_str().into())))
        .and_where(sea_query::Expr::col(sea_query::Alias::new(key)).eq(uuid::Uuid::from_u128(id)))
        .build(sea_query::PostgresQueryBuilder)
        .0
}

/// The statement that creates the `image` table unless it exists.
pub fn create_table() -> (r: String)
    ensures
        r@ == create_table_sql(
            iden_text(Image::Table),
            iden_text(Image::Uuid),
            iden_text(Image::FileName),
            iden_text(Image::Owner),
        ),
{
    render_create_table(
        Image::Table.unquoted(),
        Image::Uuid.unquoted(),
        Image::FileName.unquoted(),
        Image::Owner.unquoted(),
    )
}

/// The statement that inserts `record` as a new row.
pub fn insert_image_record(record: &ImageStruct) -> (r: Statement)
    ensures
        r.sql@ == insert_sql(
            iden_text(Image::Table),
            iden_text(Image::Uuid),
            iden_text(Image::FileName),
            iden_text(Image::Owner),
        ),
        params_view(r.params@) == seq![
            ParamView::Id(record.uuid),
            ParamView::Text(record.file_name@),
            ParamView::Text(record.owner@),
        ],
{
    let sql = render_insert(
        Image::Table.unquoted(),
        Image::Uuid.unquoted(),
        Image::FileName.unquoted(),
        Image::Owner.unquoted(),
        record,
    );
    let params = vec![
        Param::Id(record.uuid),
        Param::Text(record.file_name.clone()),
        Param::Text(record.owner.clone()),
    ];
    proof {
        assert(params_view(params@) =~= seq![
            ParamView::Id(record.uuid),
            ParamView::Text(record.file_name@),
            ParamView::Text(record.owner@),
        ]);
    }
    Statement { sql, params }
}

/// The statement that reads the row with identifier `id`.
pub fn get_image_record(id: u128) -> (r: Statement)
    ensures
        r.sql@ == select_sql(iden_text(Image::Table), iden_text(Image::Uuid)),
        params_view(r.params@) == seq![ParamView::Id(id)],
{
    let sql = render_select(Image::Table.unquoted(), Image::Uuid.unquoted(), id);
    let params = vec![Param::Id(id)];
    proof {
        assert(params_view(params@) =~= seq![ParamView::Id(id)]);
    }
    Statement { sql, params }
}

/// The statement that removes the row with identifier `id`.
pub fn delete_image_record(id: u128) -> (r: Statement)
    ensures
        r.sql@ == delete_sql(iden_text(Image::Table), iden_text(Image::Uuid)),
        params_view(r.params@) == seq![ParamView::Id(id)],
{
    let sql = render_delete(Image::Table.unquoted(), Image::Uuid.unquoted(), id);
    let params = vec![Param::Id(id)];
    proof {
        assert(params_view(params@) =~= seq![ParamView::Id(id)]);
    }
    Statement { sql, params }
}

/// The columns that an update sets, in table order.
pub open spec fn set_columns(file_name: Option<Seq<char>>, owner: Option<Seq<char>>) -> Seq<Seq<char>> {
    (if file_name is Some {
        seq![iden_text(Image::FileName)]
    } else {
        Seq::empty()
    }) + (if owner is Some {
        seq![iden_text(Image::Owner)]
    } else {
        Seq::empty()
    })
}

/// The values that an update sets, in the same order.
pub open spec fn set_values(file_name: Option<Seq<char>>, owner: Option<Seq<char>>) -> Seq<ParamView> {
    (match file_name {
        Some(n) => seq![ParamView::Text(n)],
        None => Seq::empty(),
    }) + (match owner {
        Some(o) => seq![ParamView::Text(o)],
        None => Seq::empty(),
    })
}

/// The statement that sets the given fields of the row with identifier `id`.
pub fn update_image_record(id: u128, new_file_name: Option<String>, new_owner: Option<String>) -> (r: Statement)
    requires
        new_file_name is Some || new_owner is Some,
    ensures
        ({
            let name = text_of(new_file_name);
            let owner = text_of(new_owner);
            &&& r.sql@ == update_sql(iden_text(Image::Table), set_columns(name, owner), iden_text(Image::Uuid))
            &&& params_view(r.params@) == set_values(name, owner) + seq![ParamView::Id(id)]
        }),
{
    let ghost name = text_of(new_file_name);
    let ghost owner = text_of(new_owner);
    let mut columns: Vec<String> = Vec::new();
    let mut values: Vec<String> = Vec::new();
    let mut params: Vec<Param> = Vec::new();
    match new_file_name {
        Some(n) => {
            columns.push(String::from_str(Image::FileName.unquoted()));
            values.push(n.clone());
            params.push(Param::Text(n));
        },
        None => {},
    }
    match new_owner {
        Some(o) => {
            columns.push(String::from_str(Image::Owner.unquoted()));
            values.push(o.clone());
            params.push(Param::Text(o));
        },
        None => {},
    }
    let sql = render_update(Image::Table.unquoted(), &columns, &values, Image::Uuid.unquoted(), id);
    params.push(Param::Id(id));
    proof {
        assert(texts_view(columns@) =~= set_columns(name, owner));
        assert(params_view(params@) =~= set_values(name, owner) + seq![ParamView::Id(id)]);
    }
    Statement { sql, params }
}

} // verus!
