//! The diagram renderer: a schema goes in, the text of a class diagram comes
//! out. The text is a function of the schema alone; nothing is sorted, merged
//! or left out.

use vstd::prelude::*;
use vstd::string::StringExecFns;
use crate::model::{Column, ColumnView, DatabaseSchema, Reference, ReferenceView, SchemaView, Table, TableView};

verus! {

/// The line that opens every diagram.
pub open spec fn start_marker() -> Seq<char> {
    "@startuml\n"@
}

/// The line that closes every diagram.
pub open spec fn end_marker() -> Seq<char> {
    "@enduml\n"@
}

/// The line that opens the class block of the table called `name`.
pub open spec fn class_header(name: Seq<char>) -> Seq<char> {
    "class "@ + name + " {\n"@
}

/// The line that closes a class block.
pub open spec fn class_footer() -> Seq<char> {
    "}\n"@
}

/// The body line of one column: `name : data_type`, indented by two spaces.
pub open spec fn column_line(column: ColumnView) -> Seq<char> {
    "  "@ + column.name + " : "@ + column.data_type + "\n"@
}

/// The body lines of a class block, one for each column, in column order.
pub open spec fn column_lines(columns: Seq<ColumnView>) -> Seq<Seq<char>> {
    Seq::new(columns.len(), |i: int| column_line(columns[i]))
}

/// The pieces of `parts` joined end to end, in order.
pub open spec fn concat_all(parts: Seq<Seq<char>>) -> Seq<char>
    decreases parts.len(),
{
    if parts.len() == 0 {
        Seq::empty()
    } else {
        concat_all(parts.drop_last()) + parts.last()
    }
}

/// The class block of one table: header, body lines, footer.
pub open spec fn class_block(table: TableView) -> Seq<char> {
    class_header(table.name) + concat_all(column_lines(table.columns)) + class_footer()
}

/// The class blocks of `tables`, in table order.
pub open spec fn class_blocks(tables: Seq<TableView>) -> Seq<Seq<char>> {
    Seq::new(tables.len(), |i: int| class_block(tables[i]))
}

/// A relationship line: `table::column --> referenced_table::referenced_column : label`.
pub open spec fn arrow_line(
    table: Seq<char>,
    column: Seq<char>,
    referenced_table: Seq<char>,
    referenced_column: Seq<char>,
    label: Seq<char>,
) -> Seq<char> {
    table + "::"@ + column + " --> "@ + referenced_table + "::"@ + referenced_column + " : "@
        + label + "\n"@
}

/// The relationship line of one reference. Its label is the referring column.
pub open spec fn relationship_line(reference: ReferenceView) -> Seq<char> {
    arrow_line(
        reference.table,
        reference.column,
        reference.referenced_table,
        reference.referenced_column,
        reference.column,
    )
}

/// The relationship lines of `references`, in reference order.
pub open spec fn relationship_lines(references: Seq<ReferenceView>) -> Seq<Seq<char>> {
    Seq::new(references.len(), |i: int| relationship_line(references[i]))
}

/// The whole diagram: start marker, class blocks, relationship lines, end marker.
pub open spec fn diagram_text(schema: SchemaView) -> Seq<char> {
    start_marker() + concat_all(class_blocks(schema.tables)) + concat_all(
        relationship_lines(schema.references),
    ) + end_marker()
}

/// Joining the first `n + 1` pieces is joining the first `n` and appending piece `n`.
pub proof fn lemma_concat_all_step(parts: Seq<Seq<char>>, n: int)
    requires
        0 <= n < parts.len(),
    ensures
        concat_all(parts.take(n + 1)) == concat_all(parts.take(n)) + parts[n],
{
    assert(parts.take(n + 1).drop_last() =~= parts.take(n));
}

/// A schema without tables and without references renders as the start marker
/// followed at once by the end marker.
pub proof fn lemma_empty_schema(schema: SchemaView)
    requires
        schema.tables.len() == 0,
        schema.references.len() == 0,
    ensures
        diagram_text(schema) == start_marker() + end_marker(),
{
    assert(diagram_text(schema) =~= start_marker() + end_marker());
}

/// The class block of a table holds, between its header and its footer, one
/// body line for each column, in column order, and each body line is the
/// column's name and data type around ` : `.
pub proof fn lemma_class_block_body(table: TableView)
    ensures
        class_block(table) == class_header(table.name) + concat_all(column_lines(table.columns))
            + class_footer(),
        column_lines(table.columns).len() == table.columns.len(),
        forall|i: int|
            0 <= i < table.columns.len() ==> #[trigger] column_lines(table.columns)[i] == "  "@
                + table.columns[i].name + " : "@ + table.columns[i].data_type + "\n"@,
{
}

/// The number of line ends in `text`.
pub open spec fn line_count(text: Seq<char>) -> nat
    decreases text.len(),
{
    if text.len() == 0 {
        0
    } else {
        line_count(text.drop_last()) + if text.last() == '\n' {
            1nat
        } else {
            0nat
        }
    }
}

/// `text` holds no line end.
pub open spec fn on_one_line(text: Seq<char>) -> bool {
    forall|i: int| 0 <= i < text.len() ==> text[i] != '\n'
}

/// The line ends of two texts joined are those of the first and those of the second.
pub proof fn lemma_line_count_concat(first: Seq<char>, second: Seq<char>)
    ensures
        line_count(first + second) == line_count(first) + line_count(second),
    decreases second.len(),
{
    if second.len() == 0 {
        assert(first + second =~= first);
    } else {
        assert((first + second).drop_last() =~= first + second.drop_last());
        lemma_line_count_concat(first, second.drop_last());
    }
}

/// A text without a line end counts none.
pub proof fn lemma_line_count_on_one_line(text: Seq<char>)
    requires
        on_one_line(text),
    ensures
        line_count(text) == 0,
    decreases text.len(),
{
    if text.len() > 0 {
        lemma_line_count_on_one_line(text.drop_last());
    }
}

/// The body line of a column whose name and data type hold no line end is one line.
pub proof fn lemma_column_line_is_one_line(column: ColumnView)
    requires
        on_one_line(column.name),
        on_one_line(column.data_type),
    ensures
        line_count(column_line(column)) == 1,
{
    reveal_strlit("  ");
    reveal_strlit(" : ");
    reveal_strlit("\n");
    let end = "\n"@;
    assert(end.drop_last() =~= Seq::<char>::empty());
    assert(line_count(end.drop_last()) == 0);
    assert(line_count(end) == 1);
    lemma_line_count_on_one_line("  "@);
    lemma_line_count_on_one_line(" : "@);
    lemma_line_count_on_one_line(column.name);
    lemma_line_count_on_one_line(column.data_type);
    lemma_line_count_concat("  "@, column.name);
    lemma_line_count_concat("  "@ + column.name, " : "@);
    lemma_line_count_concat("  "@ + column.name + " : "@, column.data_type);
    lemma_line_count_concat("  "@ + column.name + " : "@ + column.data_type, end);
}

/// The first `n` body lines of columns without line ends in their names and
/// data types are `n` lines of text.
pub proof fn lemma_body_line_count(columns: Seq<ColumnView>, n: int)
    requires
        0 <= n <= columns.len(),
        forall|i: int|
            0 <= i < columns.len() ==> on_one_line((#[trigger] columns[i]).name) && on_one_line(
                columns[i].data_type,
            ),
    ensures
        line_count(concat_all(column_lines(columns).take(n))) == n,
    decreases n,
{
    let lines = column_lines(columns);
    if n > 0 {
        lemma_body_line_count(columns, n - 1);
        lemma_concat_all_step(lines, n - 1);
        lemma_column_line_is_one_line(columns[n - 1]);
        lemma_line_count_concat(concat_all(lines.take(n - 1)), lines[n - 1]);
    } else {
        assert(lines.take(0) =~= Seq::<Seq<char>>::empty());
    }
}

/// Where neither the table's name nor the names and data types of its columns
/// hold a line end, the class block is the header line, one line for each
/// column, and the footer line.
pub proof fn lemma_class_block_line_count(table: TableView)
    requires
        on_one_line(table.name),
        forall|i: int|
            0 <= i < table.columns.len() ==> on_one_line((#[trigger] table.columns[i]).name)
                && on_one_line(table.columns[i].data_type),
    ensures
        line_count(class_header(table.name)) == 1,
        line_count(concat_all(column_lines(table.columns))) == table.columns.len(),
        line_count(class_footer()) == 1,
        line_count(class_block(table)) == table.columns.len() + 2,
{
    reveal_strlit("class ");
    reveal_strlit(" {\n");
    reveal_strlit("}\n");
    let lines = column_lines(table.columns);
    lemma_body_line_count(table.columns, table.columns.len() as int);
    assert(lines.take(table.columns.len() as int) =~= lines);
    let open = " {\n"@;
    lemma_line_count_on_one_line(open.drop_last());
    assert(line_count(open) == 1);
    let close = "}\n"@;
    lemma_line_count_on_one_line(close.drop_last());
    assert(line_count(close) == 1);
    lemma_line_count_on_one_line("class "@);
    lemma_line_count_on_one_line(table.name);
    lemma_line_count_concat("class "@, table.name);
    lemma_line_count_concat("class "@ + table.name, open);
    lemma_line_count_concat(class_header(table.name), concat_all(lines));
    lemma_line_count_concat(class_header(table.name) + concat_all(lines), close);
}

/// The relationship line of a reference names the reference's table, column,
/// referenced table and referenced column, in that order, and its label is the
/// reference's column.
pub proof fn lemma_relationship_line_fields(reference: ReferenceView)
    ensures
        relationship_line(reference) == reference.table + "::"@ + reference.column + " --> "@
            + reference.referenced_table + "::"@ + reference.referenced_column + " : "@
            + reference.column + "\n"@,
{
}

/// Schemas with the same view render to the same text: rendering a schema
/// again changes nothing.
pub proof fn lemma_render_repeatable(first: DatabaseSchema, second: DatabaseSchema)
    requires
        first@ == second@,
    ensures
        diagram_text(first@) == diagram_text(second@),
{
}

/// `order` lists each index below `n` exactly once.
pub open spec fn is_permutation(order: Seq<int>, n: nat) -> bool {
    &&& order.len() == n
    &&& forall|i: int| 0 <= i < n ==> 0 <= #[trigger] order[i] < n
    &&& forall|i: int, j: int| 0 <= i < j < n ==> order[i] != order[j]
}

/// The items of `items` in the order that `order` gives: item `order[i]` at place `i`.
pub open spec fn reordered<A>(items: Seq<A>, order: Seq<int>) -> Seq<A> {
    Seq::new(order.len(), |i: int| items[order[i]])
}

/// Putting the tables of a schema in another order puts its class blocks in
/// that order and changes nothing else in the text.
pub proof fn lemma_table_order(schema: SchemaView, other: SchemaView, order: Seq<int>)
    requires
        is_permutation(order, schema.tables.len()),
        other.tables == reordered(schema.tables, order),
        other.references == schema.references,
    ensures
        class_blocks(other.tables) == reordered(class_blocks(schema.tables), order),
        diagram_text(schema) == start_marker() + concat_all(class_blocks(schema.tables))
            + concat_all(relationship_lines(schema.references)) + end_marker(),
        diagram_text(other) == start_marker() + concat_all(
            reordered(class_blocks(schema.tables), order),
        ) + concat_all(relationship_lines(schema.references)) + end_marker(),
{
    assert(class_blocks(other.tables) =~= reordered(class_blocks(schema.tables), order));
}

/// Appends the body line of `column` to `out`.
pub fn push_column(out: &mut String, column: &Column)
    ensures
        final(out)@ == old(out)@ + column_line(column@),
{
    out.append("  ");
    out.append(column.name.as_str());
    out.append(" : ");
    out.append(column.data_type.as_str());
    out.append("\n");
    assert(final(out)@ =~= old(out)@ + column_line(column@));
}

/// Appends the class block of `table` to `out`.
pub fn push_table(out: &mut String, table: &Table)
    ensures
        final(out)@ == old(out)@ + class_block(table@),
{
    let ghost lines = column_lines(table@.columns);
    out.append("class ");
    out.append(table.name.as_str());
    out.append(" {\n");
    let ghost head = out@;
    assert(head =~= old(out)@ + class_header(table@.name));
    let n: usize = table.columns.len();
    let mut i: usize = 0;
    assert(lines.take(0) =~= Seq::<Seq<char>>::empty());
    while i < n
        invariant
            n == table.columns@.len(),
            i <= n,
            lines == column_lines(table@.columns),
            out@ == head + concat_all(lines.take(i as int)),
        decreases n - i,
    {
        push_column(out, &table.columns[i]);
        proof {
            lemma_concat_all_step(lines, i as int);
            assert(out@ =~= head + concat_all(lines.take(i + 1)));
        }
        i += 1;
    }
    assert(lines.take(n as int) =~= lines);
    out.append("}\n");
    assert(final(out)@ =~= old(out)@ + class_block(table@));
}

/// Appends the relationship line of `reference` to `out`.
pub fn push_reference(out: &mut String, reference: &Reference)
    ensures
        final(out)@ == old(out)@ + relationship_line(reference@),
{
    out.append(reference.table.as_str());
    out.append("::");
    out.append(reference.column.as_str());
    out.append(" --> ");
    out.append(reference.referenced_table.as_str());
    out.append("::");
    out.append(reference.referenced_column.as_str());
    out.append(" : ");
    out.append(reference.column.as_str());
    out.append("\n");
    assert(final(out)@ =~= old(out)@ + relationship_line(reference@));
}

/// Renders `schema` as the text of a class diagram.
pub fn generate_plantuml(schema: &DatabaseSchema) -> (text: String)
    ensures
        text@ == diagram_text(schema@),
{
    let ghost blocks = class_blocks(schema@.tables);
    let ghost lines = relationship_lines(schema@.references);
    let mut text = String::from_str("@startuml\n");
    let tables: usize = schema.tables.len();
    let mut i: usize = 0;
    assert(blocks.take(0) =~= Seq::<Seq<char>>::empty());
    while i < tables
        invariant
            tables == schema.tables@.len(),
            i <= tables,
            blocks == class_blocks(schema@.tables),
            text@ == start_marker() + concat_all(blocks.take(i as int)),
        decreases tables - i,
    {
        push_table(&mut text, &schema.tables[i]);
        proof {
            lemma_concat_all_step(blocks, i as int);
            assert(text@ =~= start_marker() + concat_all(blocks.take(i + 1)));
        }
        i += 1;
    }
    assert(blocks.take(tables as int) =~= blocks);
    let ghost head = text@;
    let references: usize = schema.references.len();
    let mut k: usize = 0;
    assert(lines.take(0) =~= Seq::<Seq<char>>::empty());
    while k < references
        invariant
            references == schema.references@.len(),
            k <= references,
            lines == relationship_lines(schema@.references),
            text@ == head + concat_all(lines.take(k as int)),
        decreases references - k,
    {
        push_reference(&mut text, &schema.references[k]);
        proof {
            lemma_concat_all_step(lines, k as int);
            assert(text@ =~= head + concat_all(lines.take(k + 1)));
        }
        k += 1;
    }
    assert(lines.take(references as int) =~= lines);
    text.append("@enduml\n");
    text
}

} // verus!
