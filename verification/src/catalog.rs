//! The catalog reader's side of the work that needs no connection: the
//! queries that are sent, and how the rows that come back become columns and
//! references. A row is held as plain cells; a cell that the driver could not
//! read as text keeps the driver's diagnostic.

use vstd::prelude::*;
use vstd::string::StringExecFns;
use crate::error::{ErrorView, PipelineError};
use crate::model::{Column, ColumnView, Reference, ReferenceView};

verus! {

/// One field of a result row.
#[derive(Debug, Clone, PartialEq, Eq)]
pub enum Cell {
    /// The field's text.
    Text(String),
    /// The field was missing or was no text; the diagnostic says which.
    Unreadable(String),
}

/// The view of a [`Cell`].
pub ghost enum CellView {
    Text(Seq<char>),
    Unreadable(Seq<char>),
}

impl View for Cell {
    type V = CellView;

    open spec fn view(&self) -> CellView {
        match self {
            Cell::Text(t) => CellView::Text(t@),
            Cell::Unreadable(m) => CellView::Unreadable(m@),
        }
    }
}

impl CellView {
    /// The text of a readable cell; for an unreadable one, a catalog query
    /// error with the cell's diagnostic.
    pub open spec fn decoded(self) -> Result<Seq<char>, ErrorView> {
        match self {
            CellView::Text(t) => Ok(t),
            CellView::Unreadable(m) => Err(ErrorView::CatalogQuery(m)),
        }
    }
}

impl Cell {
    /// Reads the cell as text.
    pub fn decode(&self) -> (text: Result<String, PipelineError>)
        ensures
            match text {
                Ok(t) => self@.decoded() == Ok::<Seq<char>, ErrorView>(t@),
                Err(e) => self@.decoded() == Err::<Seq<char>, ErrorView>(e@),
            },
    {
        match self {
            Cell::Text(t) => Ok(t.clone()),
            Cell::Unreadable(m) => Err(PipelineError::CatalogQuery(m.clone())),
        }
    }
}

/// A row of the table list.
#[derive(Debug, Clone, PartialEq, Eq)]
pub struct TableRow {
    pub table_name: Cell,
}

/// The view of a [`TableRow`].
pub ghost struct TableRowView {
    pub table_name: CellView,
}

impl View for TableRow {
    type V = TableRowView;

    open spec fn view(&self) -> TableRowView {
        TableRowView { table_name: self.table_name@ }
    }
}

/// The views of a sequence of table rows, in the same order.
pub open spec fn table_row_views(rows: Seq<TableRow>) -> Seq<TableRowView> {
    Seq::new(rows.len(), |i: int| rows[i]@)
}

/// A row of the column list of one table.
#[derive(Debug, Clone, PartialEq, Eq)]
pub struct ColumnRow {
    pub column_name: Cell,
    pub data_type: Cell,
}

/// The view of a [`ColumnRow`].
pub ghost struct ColumnRowView {
    pub column_name: CellView,
    pub data_type: CellView,
}

impl View for ColumnRow {
    type V = ColumnRowView;

    open spec fn view(&self) -> ColumnRowView {
        ColumnRowView { column_name: self.column_name@, data_type: self.data_type@ }
    }
}

/// The views of a sequence of column rows, in the same order.
pub open spec fn column_row_views(rows: Seq<ColumnRow>) -> Seq<ColumnRowView> {
    Seq::new(rows.len(), |i: int| rows[i]@)
}

impl ColumnRowView {
    /// The column that the row describes, or the error of its first
    /// unreadable cell, the name coming before the data type.
    pub open spec fn column(self) -> Result<ColumnView, ErrorView> {
        match self.column_name.decoded() {
            Err(e) => Err(e),
            Ok(name) => match self.data_type.decoded() {
                Err(e) => Err(e),
                Ok(data_type) => Ok(ColumnView { name, data_type }),
            },
        }
    }
}

impl ColumnRow {
    /// Reads the row as a column.
    pub fn to_column(&self) -> (column: Result<Column, PipelineError>)
        ensures
            match column {
                Ok(c) => self@.column() == Ok::<ColumnView, ErrorView>(c@),
                Err(e) => self@.column() == Err::<ColumnView, ErrorView>(e@),
            },
    {
        let name = match self.column_name.decode() {
            Ok(t) => t,
            Err(e) => { return Err(e); },
        };
        let data_type = match self.data_type.decode() {
            Ok(t) => t,
            Err(e) => { return Err(e); },
        };
        Ok(Column { name, data_type })
    }
}

/// A row of the foreign-key list: one pair of columns of one foreign key.
#[derive(Debug, Clone, PartialEq, Eq)]
pub struct ReferenceRow {
    pub table: Cell,
    pub column: Cell,
    pub referenced_table: Cell,
    pub referenced_column: Cell,
}

/// The view of a [`ReferenceRow`].
pub ghost struct ReferenceRowView {
    pub table: CellView,
    pub column: CellView,
    pub referenced_table: CellView,
    pub referenced_column: CellView,
}

impl View for ReferenceRow {
    type V = ReferenceRowView;

    open spec fn view(&self) -> ReferenceRowView {
        ReferenceRowView {
            table: self.table@,
            column: self.column@,
            referenced_table: self.referenced_table@,
            referenced_column: self.referenced_column@,
        }
    }
}

/// The views of a sequence of foreign-key rows, in the same order.
pub open spec fn reference_row_views(rows: Seq<ReferenceRow>) -> Seq<ReferenceRowView> {
    Seq::new(rows.len(), |i: int| rows[i]@)
}

impl ReferenceRowView {
    /// The reference that the row describes, or the error of its first
    /// unreadable cell, in the order table, column, referenced table,
    /// referenced column.
    pub open spec fn reference(self) -> Result<ReferenceView, ErrorView> {
        match self.table.decoded() {
            Err(e) => Err(e),
            Ok(table) => match self.column.decoded() {
                Err(e) => Err(e),
                Ok(column) => match self.referenced_table.decoded() {
                    Err(e) => Err(e),
                    Ok(referenced_table) => match self.referenced_column.decoded() {
                        Err(e) => Err(e),
                        Ok(referenced_column) => Ok(
                            ReferenceView { table, column, referenced_table, referenced_column },
                        ),
                    },
                },
            },
        }
    }
}

impl ReferenceRow {
    /// Reads the row as a reference.
    pub fn to_reference(&self) -> (reference: Result<Reference, PipelineError>)
        ensures
            match reference {
                Ok(r) => self@.reference() == Ok::<ReferenceView, ErrorView>(r@),
                Err(e) => self@.reference() == Err::<ReferenceView, ErrorView>(e@),
            },
    {
        let table = match self.table.decode() {
            Ok(t) => t,
            Err(e) => { return Err(e); },
        };
        let column = match self.column.decode() {
            Ok(t) => t,
            Err(e) => { return Err(e); },
        };
        let referenced_table = match self.referenced_table.decode() {
            Ok(t) => t,
            Err(e) => { return Err(e); },
        };
        let referenced_column = match self.referenced_column.decode() {
            Ok(t) => t,
            Err(e) => { return Err(e); },
        };
        Ok(Reference { table, column, referenced_table, referenced_column })
    }
}

/// Every one of `items` is a success.
pub open spec fn all_ok<T>(items: Seq<Result<T, ErrorView>>) -> bool {
    forall|i: int| 0 <= i < items.len() ==> (#[trigger] items[i]) is Ok
}

/// `k` is the place of the first failure among `items`.
pub open spec fn is_first_failure<T>(items: Seq<Result<T, ErrorView>>, k: int) -> bool {
    &&& 0 <= k < items.len()
    &&& items[k] is Err
    &&& forall|j: int| 0 <= j < k ==> (#[trigger] items[j]) is Ok
}

/// All or nothing: the values of `items` in order where each is a success,
/// else the error of the first failure.
pub open spec fn collect<T>(items: Seq<Result<T, ErrorView>>) -> Result<Seq<T>, ErrorView> {
    if all_ok(items) {
        Ok(Seq::new(items.len(), |i: int| items[i]->Ok_0))
    } else {
        Err(items[choose|k: int| is_first_failure(items, k)]->Err_0)
    }
}

/// Where `k` is the place of the first failure, `collect` gives its error.
pub proof fn lemma_collect_failure<T>(items: Seq<Result<T, ErrorView>>, k: int)
    requires
        is_first_failure(items, k),
    ensures
        collect(items) == Err::<Seq<T>, ErrorView>(items[k]->Err_0),
{
    let c = choose|c: int| is_first_failure(items, c);
    assert(is_first_failure(items, c));
    assert(!all_ok(items));
    if c < k {
        assert(items[c] is Ok);
    }
    if k < c {
        assert(items[k] is Ok);
    }
}

/// What each column row reads as, in row order.
pub open spec fn column_results(rows: Seq<ColumnRowView>) -> Seq<Result<ColumnView, ErrorView>> {
    Seq::new(rows.len(), |i: int| rows[i].column())
}

/// What each foreign-key row reads as, in row order.
pub open spec fn reference_results(rows: Seq<ReferenceRowView>) -> Seq<
    Result<ReferenceView, ErrorView>,
> {
    Seq::new(rows.len(), |i: int| rows[i].reference())
}

/// The columns of one table from the rows of its column list: one column for
/// each row, in row order, or the error of the first row that cannot be read.
pub fn columns_from_rows(rows: &Vec<ColumnRow>) -> (columns: Result<Vec<Column>, PipelineError>)
    ensures
        match columns {
            Ok(c) => collect(column_results(column_row_views(rows@))) == Ok::<
                Seq<ColumnView>,
                ErrorView,
            >(crate::model::column_views(c@)),
            Err(e) => collect(column_results(column_row_views(rows@))) == Err::<
                Seq<ColumnView>,
                ErrorView,
            >(e@),
        },
{
    let ghost results = column_results(column_row_views(rows@));
    let mut columns: Vec<Column> = Vec::new();
    let n: usize = rows.len();
    let mut i: usize = 0;
    while i < n
        invariant
            n == rows@.len(),
            i <= n,
            results == column_results(column_row_views(rows@)),
            columns@.len() == i,
            forall|j: int| 0 <= j < i ==> (#[trigger] results[j]) == Ok::<ColumnView, ErrorView>(
                columns@[j]@,
            ),
        decreases n - i,
    {
        match rows[i].to_column() {
            Ok(c) => {
                columns.push(c);
            },
            Err(e) => {
                proof {
                    assert(results[i as int] == Err::<ColumnView, ErrorView>(e@));
                    assert(is_first_failure(results, i as int));
                    lemma_collect_failure(results, i as int);
                }
                return Err(e);
            },
        }
        i += 1;
    }
    proof {
        assert(all_ok(results));
        assert(collect(results)->Ok_0 =~= crate::model::column_views(columns@));
    }
    Ok(columns)
}

/// The references from the rows of the foreign-key list: one reference for
/// each row, in row order, or the error of the first row that cannot be read.
pub fn references_from_rows(rows: &Vec<ReferenceRow>) -> (references: Result<
    Vec<Reference>,
    PipelineError,
>)
    ensures
        match references {
            Ok(r) => collect(reference_results(reference_row_views(rows@))) == Ok::<
                Seq<ReferenceView>,
                ErrorView,
            >(crate::model::reference_views(r@)),
            Err(e) => collect(reference_results(reference_row_views(rows@))) == Err::<
                Seq<ReferenceView>,
                ErrorView,
            >(e@),
        },
{
    let ghost results = reference_results(reference_row_views(rows@));
    let mut references: Vec<Reference> = Vec::new();
    let n: usize = rows.len();
    let mut i: usize = 0;
    while i < n
        invariant
            n == rows@.len(),
            i <= n,
            results == reference_results(reference_row_views(rows@)),
            references@.len() == i,
            forall|j: int|
                0 <= j < i ==> (#[trigger] results[j]) == Ok::<ReferenceView, ErrorView>(
                    references@[j]@,
                ),
        decreases n - i,
    {
        match rows[i].to_reference() {
            Ok(r) => {
                references.push(r);
            },
            Err(e) => {
                proof {
                    assert(results[i as int] == Err::<ReferenceView, ErrorView>(e@));
                    assert(is_first_failure(results, i as int));
                    lemma_collect_failure(results, i as int);
                }
                return Err(e);
            },
        }
        i += 1;
    }
    proof {
        assert(all_ok(results));
        assert(collect(results)->Ok_0 =~= crate::model::reference_views(references@));
    }
    Ok(references)
}

/// A catalog query: its text, the values bound to its placeholders `@p1`,
/// `@p2`, ... in order, and the names of the fields to read from each row of
/// the result, in the order of the row's cells. No value is ever spliced into
/// the text.
#[derive(Debug, Clone, PartialEq, Eq)]
pub struct CatalogQuery {
    pub text: String,
    pub parameters: Vec<String>,
    pub fields: Vec<String>,
}

/// The views of a sequence of strings, in the same order.
pub open spec fn text_views(texts: Seq<String>) -> Seq<Seq<char>> {
    Seq::new(texts.len(), |i: int| texts[i]@)
}

/// The view of a [`CatalogQuery`].
pub ghost struct QueryView {
    pub text: Seq<char>,
    pub parameters: Seq<Seq<char>>,
    pub fields: Seq<Seq<char>>,
}

impl View for CatalogQuery {
    type V = QueryView;

    open spec fn view(&self) -> QueryView {
        QueryView {
            text: self.text@,
            parameters: text_views(self.parameters@),
            fields: text_views(self.fields@),
        }
    }
}

/// The query for the names of the base tables; views are left out.
pub open spec fn tables_query_view() -> QueryView {
    QueryView {
        text: "SELECT TABLE_NAME FROM INFORMATION_SCHEMA.TABLES WHERE TABLE_TYPE = 'BASE TABLE'"@,
        parameters: Seq::empty(),
        fields: seq!["TABLE_NAME"@],
    }
}

/// The query for the columns of the table called `table_name`, which is bound
/// to the one placeholder.
pub open spec fn columns_query_view(table_name: Seq<char>) -> QueryView {
    QueryView {
        text: "SELECT COLUMN_NAME, DATA_TYPE FROM INFORMATION_SCHEMA.COLUMNS WHERE TABLE_NAME = @p1"@,
        parameters: seq![table_name],
        fields: seq!["COLUMN_NAME"@, "DATA_TYPE"@],
    }
}

/// The query for the foreign keys: one row for each pair of columns of each
/// foreign key.
pub open spec fn foreign_keys_query_view() -> QueryView {
    QueryView {
        text: "SELECT tp.name AS TABLE_NAME, cp.name AS COLUMN_NAME, tr.name AS REFERENCED_TABLE_NAME, cr.name AS REFERENCED_COLUMN_NAME FROM sys.foreign_keys AS fk INNER JOIN sys.foreign_key_columns AS fkc ON fk.object_id = fkc.constraint_object_id INNER JOIN sys.tables AS tp ON fkc.parent_object_id = tp.object_id INNER JOIN sys.columns AS cp ON fkc.parent_object_id = cp.object_id AND fkc.parent_column_id = cp.column_id INNER JOIN sys.tables AS tr ON fkc.referenced_object_id = tr.object_id INNER JOIN sys.columns AS cr ON fkc.referenced_object_id = cr.object_id AND fkc.referenced_column_id = cr.column_id"@,
        parameters: Seq::empty(),
        fields: seq![
            "TABLE_NAME"@,
            "COLUMN_NAME"@,
            "REFERENCED_TABLE_NAME"@,
            "REFERENCED_COLUMN_NAME"@,
        ],
    }
}

/// The query that lists the base tables.
pub fn tables_query() -> (query: CatalogQuery)
    ensures
        query@ == tables_query_view(),
{
    let mut fields: Vec<String> = Vec::new();
    fields.push(String::from_str("TABLE_NAME"));
    let query = CatalogQuery {
        text: String::from_str(
            "SELECT TABLE_NAME FROM INFORMATION_SCHEMA.TABLES WHERE TABLE_TYPE = 'BASE TABLE'",
        ),
        parameters: Vec::new(),
        fields,
    };
    assert(query@.parameters =~= Seq::<Seq<char>>::empty());
    assert(query@.fields =~= seq!["TABLE_NAME"@]);
    query
}

/// The query that lists the columns of one table.
pub fn columns_query(table_name: &str) -> (query: CatalogQuery)
    ensures
        query@ == columns_query_view(table_name@),
{
    let mut parameters: Vec<String> = Vec::new();
    parameters.push(String::from_str(table_name));
    let mut fields: Vec<String> = Vec::new();
    fields.push(String::from_str("COLUMN_NAME"));
    fields.push(String::from_str("DATA_TYPE"));
    let query = CatalogQuery {
        text: String::from_str(
            "SELECT COLUMN_NAME, DATA_TYPE FROM INFORMATION_SCHEMA.COLUMNS WHERE TABLE_NAME = @p1",
        ),
        parameters,
        fields,
    };
    assert(query@.parameters =~= seq![table_name@]);
    assert(query@.fields =~= seq!["COLUMN_NAME"@, "DATA_TYPE"@]);
    query
}

/// The query that lists the foreign keys.
pub fn foreign_keys_query() -> (query: CatalogQuery)
    ensures
        query@ == foreign_keys_query_view(),
{
    let mut fields: Vec<String> = Vec::new();
    fields.push(String::from_str("TABLE_NAME"));
    fields.push(String::from_str("COLUMN_NAME"));
    fields.push(String::from_str("REFERENCED_TABLE_NAME"));
    fields.push(String::from_str("REFERENCED_COLUMN_NAME"));
    let query = CatalogQuery {
        text: String::from_str(
            "SELECT tp.name AS TABLE_NAME, cp.name AS COLUMN_NAME, tr.name AS REFERENCED_TABLE_NAME, cr.name AS REFERENCED_COLUMN_NAME FROM sys.foreign_keys AS fk INNER JOIN sys.foreign_key_columns AS fkc ON fk.object_id = fkc.constraint_object_id INNER JOIN sys.tables AS tp ON fkc.parent_object_id = tp.object_id INNER JOIN sys.columns AS cp ON fkc.parent_object_id = cp.object_id AND fkc.parent_column_id = cp.column_id INNER JOIN sys.tables AS tr ON fkc.referenced_object_id = tr.object_id INNER JOIN sys.columns AS cr ON fkc.referenced_object_id = cr.object_id AND fkc.referenced_column_id = cr.column_id",
        ),
        parameters: Vec::new(),
        fields,
    };
    assert(query@.parameters =~= Seq::<Seq<char>>::empty());
    assert(query@.fields =~= seq![
        "TABLE_NAME"@,
        "COLUMN_NAME"@,
        "REFERENCED_TABLE_NAME"@,
        "REFERENCED_COLUMN_NAME"@,
    ]);
    query
}

/// The address of the database: the given server on the fixed port, with the
/// given credentials and catalog, the server's certificate taken on trust and
/// thirty seconds allowed for connecting.
pub open spec fn connection_url_text(
    username: Seq<char>,
    password: Seq<char>,
    address: Seq<char>,
    catalog: Seq<char>,
) -> Seq<char> {
    "mssql://"@ + username + ":"@ + password + "@"@ + address + ":1433/"@ + catalog
        + "?trustservercertificate=true&connect_timeout=30"@
}

/// Builds the address that the connection is opened with.
pub fn connection_url(username: &str, password: &str, address: &str, catalog: &str) -> (url: String)
    ensures
        url@ == connection_url_text(username@, password@, address@, catalog@),
{
    let mut url = String::from_str("mssql://");
    url.append(username);
    url.append(":");
    url.append(password);
    url.append("@");
    url.append(address);
    url.append(":1433/");
    url.append(catalog);
    url.append("?trustservercertificate=true&connect_timeout=30");
    url
}

} // verus!
