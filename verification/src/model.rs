//! The schema model: what a catalog says about tables, their columns and the
//! foreign keys between them, together with the mathematical view of each type.

use vstd::prelude::*;

verus! {

/// One column of a table.
#[derive(Debug, Clone, PartialEq, Eq)]
pub struct Column {
    pub name: String,
    pub data_type: String,
}

/// The view of a [`Column`].
pub ghost struct ColumnView {
    pub name: Seq<char>,
    pub data_type: Seq<char>,
}

impl View for Column {
    type V = ColumnView;

    open spec fn view(&self) -> ColumnView {
        ColumnView { name: self.name@, data_type: self.data_type@ }
    }
}

/// A table with its columns, in the order in which the catalog listed them.
#[derive(Debug, Clone, PartialEq, Eq)]
pub struct Table {
    pub name: String,
    pub columns: Vec<Column>,
}

/// The view of a [`Table`].
pub ghost struct TableView {
    pub name: Seq<char>,
    pub columns: Seq<ColumnView>,
}

/// The views of a sequence of columns, in the same order.
pub open spec fn column_views(columns: Seq<Column>) -> Seq<ColumnView> {
    Seq::new(columns.len(), |i: int| columns[i]@)
}

impl View for Table {
    type V = TableView;

    open spec fn view(&self) -> TableView {
        TableView { name: self.name@, columns: column_views(self.columns@) }
    }
}

impl TableView {
    /// No two columns of the table share a name.
    pub open spec fn well_formed(self) -> bool {
        forall|i: int, j: int|
            0 <= i < j < self.columns.len() ==> self.columns[i].name != self.columns[j].name
    }
}

impl Table {
    /// Whether no two columns of the table share a name.
    pub fn has_unique_column_names(&self) -> (unique: bool)
        ensures
            unique == self@.well_formed(),
    {
        let n: usize = self.columns.len();
        let mut j: usize = 0;
        while j < n
            invariant
                n == self.columns@.len(),
                j <= n,
                forall|a: int, b: int|
                    0 <= a < b < j ==> self@.columns[a].name != self@.columns[b].name,
            decreases n - j,
        {
            let mut i: usize = 0;
            while i < j
                invariant
                    n == self.columns@.len(),
                    i <= j < n,
                    forall|a: int| 0 <= a < i ==> self@.columns[a].name != self@.columns[j as int].name,
                decreases j - i,
            {
                if self.columns[i].name == self.columns[j].name {
                    assert(self@.columns[i as int].name == self@.columns[j as int].name);
                    return false;
                }
                i += 1;
            }
            j += 1;
        }
        true
    }
}

/// One column of a foreign key: `table.column` refers to
/// `referenced_table.referenced_column`. A key over several columns gives one
/// reference per pair of columns.
#[derive(Debug, Clone, PartialEq, Eq)]
pub struct Reference {
    pub table: String,
    pub column: String,
    pub referenced_table: String,
    pub referenced_column: String,
}

/// The view of a [`Reference`].
pub ghost struct ReferenceView {
    pub table: Seq<char>,
    pub column: Seq<char>,
    pub referenced_table: Seq<char>,
    pub referenced_column: Seq<char>,
}

impl View for Reference {
    type V = ReferenceView;

    open spec fn view(&self) -> ReferenceView {
        ReferenceView {
            table: self.table@,
            column: self.column@,
            referenced_table: self.referenced_table@,
            referenced_column: self.referenced_column@,
        }
    }
}

/// The tables and foreign keys of one database, each in catalog order.
#[derive(Debug, Clone, PartialEq, Eq)]
pub struct DatabaseSchema {
    pub tables: Vec<Table>,
    pub references: Vec<Reference>,
}

/// The view of a [`DatabaseSchema`].
pub ghost struct SchemaView {
    pub tables: Seq<TableView>,
    pub references: Seq<ReferenceView>,
}

/// The views of a sequence of tables, in the same order.
pub open spec fn table_views(tables: Seq<Table>) -> Seq<TableView> {
    Seq::new(tables.len(), |i: int| tables[i]@)
}

/// The views of a sequence of references, in the same order.
pub open spec fn reference_views(references: Seq<Reference>) -> Seq<ReferenceView> {
    Seq::new(references.len(), |i: int| references[i]@)
}

impl View for DatabaseSchema {
    type V = SchemaView;

    open spec fn view(&self) -> SchemaView {
        SchemaView {
            tables: table_views(self.tables@),
            references: reference_views(self.references@),
        }
    }
}

} // verus!
