//! The pipeline driver and the schema assembler as one state machine. The
//! machine decides; whoever runs it does the outside work. It is handed the
//! outcome of the last action as an event and answers with the next action:
//! connect, list the tables, list the columns of each table in turn, list
//! the foreign keys, write the diagram, finish. The first failure ends the
//! run: no later query is asked for and nothing is written.

use vstd::prelude::*;
use vstd::string::StringExecFns;
use crate::catalog::{
    columns_from_rows, columns_query, columns_query_view, collect, column_results,
    column_row_views, foreign_keys_query, foreign_keys_query_view, reference_results,
    reference_row_views, references_from_rows, table_row_views, tables_query, tables_query_view,
    CatalogQuery, Cell, CellView, ColumnRow, ColumnRowView, QueryView, ReferenceRow,
    ReferenceRowView, TableRow, TableRowView,
};
use crate::error::{ErrorView, PipelineError};
use crate::model::{ColumnView, DatabaseSchema, ReferenceView, SchemaView, Table, TableView};
use crate::render::{diagram_text, generate_plantuml};

verus! {

/// Where a run stands.
#[derive(Debug, Clone, Copy, PartialEq, Eq, Structural)]
pub enum Stage {
    /// The connection is being opened.
    Connecting,
    /// The table list, then the columns of each listed table, are being read.
    ExtractingTables,
    /// The foreign keys are being read.
    ExtractingReferences,
    /// The schema is complete and is being rendered. Rendering needs no
    /// outside work, so a run passes through this stage within the step
    /// that receives the foreign keys and never rests in it.
    Rendering,
    /// The diagram is being written to the output file.
    WritingOutput,
    /// The run succeeded.
    Done,
    /// The run failed; it stays failed.
    Failed,
}

impl Stage {
    /// The run is over, one way or the other.
    pub open spec fn is_final(self) -> bool {
        self is Done || self is Failed
    }

    /// The stage that follows this one when its work succeeded.
    pub open spec fn following(self) -> Stage {
        match self {
            Stage::Connecting => Stage::ExtractingTables,
            Stage::ExtractingTables => Stage::ExtractingReferences,
            Stage::ExtractingReferences => Stage::Rendering,
            Stage::Rendering => Stage::WritingOutput,
            Stage::WritingOutput => Stage::Done,
            Stage::Done => Stage::Done,
            Stage::Failed => Stage::Failed,
        }
    }
}

/// The outcome of the action that the machine asked for last.
#[derive(Debug, Clone, PartialEq, Eq)]
pub enum Event {
    /// The connection stands.
    Connected,
    /// The rows of the table list.
    TableRows(Vec<TableRow>),
    /// The rows of the column list that was asked for.
    ColumnRows(Vec<ColumnRow>),
    /// The rows of the foreign-key list.
    ReferenceRows(Vec<ReferenceRow>),
    /// The output file is written.
    Written,
    /// The action failed, with this diagnostic.
    Failure(String),
}

/// The view of an [`Event`].
pub ghost enum EventView {
    Connected,
    TableRows(Seq<TableRowView>),
    ColumnRows(Seq<ColumnRowView>),
    ReferenceRows(Seq<ReferenceRowView>),
    Written,
    Failure(Seq<char>),
}

impl View for Event {
    type V = EventView;

    open spec fn view(&self) -> EventView {
        match self {
            Event::Connected => EventView::Connected,
            Event::TableRows(rows) => EventView::TableRows(table_row_views(rows@)),
            Event::ColumnRows(rows) => EventView::ColumnRows(column_row_views(rows@)),
            Event::ReferenceRows(rows) => EventView::ReferenceRows(reference_row_views(rows@)),
            Event::Written => EventView::Written,
            Event::Failure(m) => EventView::Failure(m@),
        }
    }
}

/// What the machine asks for next.
#[derive(Debug, Clone, PartialEq, Eq)]
pub enum Action {
    /// Open the connection.
    Connect,
    /// Run the query and answer with `Event::TableRows`.
    ListTables(CatalogQuery),
    /// Run the query and answer with `Event::ColumnRows`.
    ListColumns(CatalogQuery),
    /// Run the query and answer with `Event::ReferenceRows`.
    ListForeignKeys(CatalogQuery),
    /// Write `contents` to the file `file_name`, replacing what is there.
    WriteOutput { file_name: String, contents: String },
    /// The run succeeded: print the line and stop.
    Finish(String),
    /// The run failed: report the error and stop.
    Abort(PipelineError),
}

/// The view of an [`Action`].
pub ghost enum ActionView {
    Connect,
    ListTables(QueryView),
    ListColumns(QueryView),
    ListForeignKeys(QueryView),
    WriteOutput { file_name: Seq<char>, contents: Seq<char> },
    Finish(Seq<char>),
    Abort(ErrorView),
}

impl View for Action {
    type V = ActionView;

    open spec fn view(&self) -> ActionView {
        match self {
            Action::Connect => ActionView::Connect,
            Action::ListTables(q) => ActionView::ListTables(q@),
            Action::ListColumns(q) => ActionView::ListColumns(q@),
            Action::ListForeignKeys(q) => ActionView::ListForeignKeys(q@),
            Action::WriteOutput { file_name, contents } => ActionView::WriteOutput {
                file_name: file_name@,
                contents: contents@,
            },
            Action::Finish(line) => ActionView::Finish(line@),
            Action::Abort(e) => ActionView::Abort(e@),
        }
    }
}

/// The name of the file that the diagram is written to.
pub open spec fn output_file_name() -> Seq<char> {
    "schema.puml"@
}

/// The line that confirms a successful run.
pub open spec fn confirmation_line() -> Seq<char> {
    "PlantUML script generated and saved to schema.puml"@
}

/// The diagnostic for an event that does not answer the pending action.
pub open spec fn unexpected_event_message() -> Seq<char> {
    "the event does not answer the pending action"@
}

/// The error for a failure, by the stage in which it happened.
pub open spec fn error_for(stage: Stage, message: Seq<char>) -> ErrorView {
    match stage {
        Stage::Connecting => ErrorView::Connection(message),
        Stage::WritingOutput => ErrorView::OutputWrite(message),
        _ => ErrorView::CatalogQuery(message),
    }
}

/// The schema without tables and without references.
pub open spec fn empty_schema() -> SchemaView {
    SchemaView { tables: Seq::empty(), references: Seq::empty() }
}

/// The state of a run.
pub ghost struct PipelineView {
    /// Where the run stands.
    pub stage: Stage,
    /// Whether the table list has arrived.
    pub listed: bool,
    /// The rows of the table list.
    pub rows: Seq<TableRowView>,
    /// The schema as far as it is assembled: one table for each of the first
    /// rows, and the references once they have arrived.
    pub schema: SchemaView,
    /// The error of a failed run.
    pub error: Option<ErrorView>,
}

impl PipelineView {
    /// The state in which every run starts.
    pub open spec fn initial() -> PipelineView {
        PipelineView {
            stage: Stage::Connecting,
            listed: false,
            rows: Seq::empty(),
            schema: empty_schema(),
            error: None,
        }
    }

    /// The state of a run that failed with `error`. It keeps no part of a schema.
    pub open spec fn failed(error: ErrorView) -> PipelineView {
        PipelineView {
            stage: Stage::Failed,
            listed: false,
            rows: Seq::empty(),
            schema: empty_schema(),
            error: Some(error),
        }
    }

    /// The run waits for the columns of the table of the first row that has
    /// no table yet, and that row's name can be read.
    pub open spec fn awaits_columns(self) -> bool {
        &&& self.schema.tables.len() < self.rows.len()
        &&& self.rows[self.schema.tables.len() as int].table_name is Text
    }

    /// The name of the table whose columns the run waits for.
    pub open spec fn current_table(self) -> Seq<char> {
        self.rows[self.schema.tables.len() as int].table_name->Text_0
    }

    /// What holds of every state that a run reaches.
    pub open spec fn well_formed(self) -> bool {
        &&& self.stage != Stage::Rendering
        &&& (self.stage is Failed <==> self.error is Some)
        &&& (self.stage is Failed ==> self == PipelineView::failed(self.error->Some_0))
        &&& (!self.listed ==> self.rows.len() == 0)
        &&& (self.stage is Connecting ==> !self.listed)
        &&& self.schema.tables.len() <= self.rows.len()
        &&& (forall|i: int|
            0 <= i < self.schema.tables.len() ==> (#[trigger] self.rows[i]).table_name
                == CellView::Text(self.schema.tables[i].name))
        &&& (self.stage is ExtractingTables && self.listed ==> self.awaits_columns())
        &&& (self.stage is ExtractingReferences || self.stage is WritingOutput || self.stage is Done
            ==> self.listed && self.schema.tables.len() == self.rows.len())
        &&& (self.stage is Connecting || self.stage is ExtractingTables
            || self.stage is ExtractingReferences ==> self.schema.references.len() == 0)
    }

    /// With the tables so far in hand: the run goes on to the columns of the
    /// next listed table, fails where that table's name cannot be read, and
    /// turns to the foreign keys when no listed table is left.
    pub open spec fn resumed(self) -> Result<PipelineView, ErrorView> {
        if self.schema.tables.len() < self.rows.len() {
            match self.rows[self.schema.tables.len() as int].table_name.decoded() {
                Ok(_) => Ok(PipelineView { stage: Stage::ExtractingTables, ..self }),
                Err(e) => Err(e),
            }
        } else {
            Ok(PipelineView { stage: Stage::ExtractingTables.following(), ..self })
        }
    }

    /// The state with one more table: the current one, with `columns`.
    pub open spec fn with_table(self, columns: Seq<ColumnView>) -> PipelineView {
        PipelineView {
            schema: SchemaView {
                tables: self.schema.tables.push(
                    TableView { name: self.current_table(), columns },
                ),
                references: self.schema.references,
            },
            ..self
        }
    }

    /// The error of an event that does not answer the pending action.
    pub open spec fn unexpected(self) -> Result<PipelineView, ErrorView> {
        Err(error_for(self.stage, unexpected_event_message()))
    }

    /// What `event` makes of a run that is not over: the state it goes on
    /// in, or the error it fails with.
    pub open spec fn answered(self, event: EventView) -> Result<PipelineView, ErrorView> {
        match event {
            EventView::Failure(message) => Err(error_for(self.stage, message)),
            EventView::Connected => if self.stage is Connecting {
                Ok(PipelineView { stage: self.stage.following(), ..self })
            } else {
                self.unexpected()
            },
            EventView::TableRows(rows) => if self.stage is ExtractingTables && !self.listed {
                PipelineView { listed: true, rows, ..self }.resumed()
            } else {
                self.unexpected()
            },
            EventView::ColumnRows(rows) => if self.stage is ExtractingTables && self.listed {
                match collect(column_results(rows)) {
                    Ok(columns) => self.with_table(columns).resumed(),
                    Err(e) => Err(e),
                }
            } else {
                self.unexpected()
            },
            EventView::ReferenceRows(rows) => if self.stage is ExtractingReferences {
                match collect(reference_results(rows)) {
                    Ok(references) => Ok(
                        PipelineView {
                            stage: self.stage.following().following(),
                            schema: SchemaView { tables: self.schema.tables, references },
                            ..self
                        },
                    ),
                    Err(e) => Err(e),
                }
            } else {
                self.unexpected()
            },
            EventView::Written => if self.stage is WritingOutput {
                Ok(PipelineView { stage: self.stage.following(), ..self })
            } else {
                self.unexpected()
            },
        }
    }

    /// The state after `event`. A run that is over stays as it is; any
    /// failure ends the run.
    pub open spec fn next(self, event: EventView) -> PipelineView {
        if self.stage.is_final() {
            self
        } else {
            match self.answered(event) {
                Ok(state) => state,
                Err(e) => PipelineView::failed(e),
            }
        }
    }

    /// The action that the run waits for in this state.
    pub open spec fn pending(self) -> ActionView {
        match self.stage {
            Stage::Connecting => ActionView::Connect,
            Stage::ExtractingTables => if self.listed {
                ActionView::ListColumns(columns_query_view(self.current_table()))
            } else {
                ActionView::ListTables(tables_query_view())
            },
            Stage::ExtractingReferences => ActionView::ListForeignKeys(foreign_keys_query_view()),
            Stage::Rendering | Stage::WritingOutput => ActionView::WriteOutput {
                file_name: output_file_name(),
                contents: diagram_text(self.schema),
            },
            Stage::Done => ActionView::Finish(confirmation_line()),
            Stage::Failed => ActionView::Abort(self.error->Some_0),
        }
    }

    /// The state after each of `events` in turn.
    pub open spec fn run(self, events: Seq<EventView>) -> PipelineView
        decreases events.len(),
    {
        if events.len() == 0 {
            self
        } else {
            self.run(events.drop_last()).next(events.last())
        }
    }
}

/// Every event takes a well-formed state to a well-formed state.
pub proof fn lemma_next_well_formed(state: PipelineView, event: EventView)
    requires
        state.well_formed(),
    ensures
        state.next(event).well_formed(),
{
    if !state.stage.is_final() {
        match event {
            EventView::ColumnRows(rows) => {
                if state.stage is ExtractingTables && state.listed {
                    match collect(column_results(rows)) {
                        Ok(columns) => {
                            let grown = state.with_table(columns);
                            assert(grown.schema.tables.len() == state.schema.tables.len() + 1);
                            assert forall|i: int| 0 <= i < grown.schema.tables.len() implies (
                            #[trigger] grown.rows[i]).table_name == CellView::Text(
                                grown.schema.tables[i].name,
                            ) by {
                                if i < state.schema.tables.len() {
                                    assert(state.rows[i].table_name == CellView::Text(
                                        state.schema.tables[i].name,
                                    ));
                                }
                            }
                        },
                        Err(_) => {},
                    }
                }
            },
            _ => {},
        }
    }
}

/// Once the tables are extracted the schema holds one table for each row of
/// the table list, in the order of the list and under the listed name.
pub proof fn lemma_tables_follow_listing(state: PipelineView)
    requires
        state.well_formed(),
        state.stage is ExtractingReferences || state.stage is WritingOutput || state.stage is Done,
    ensures
        state.schema.tables.len() == state.rows.len(),
        forall|i: int|
            0 <= i < state.rows.len() ==> (#[trigger] state.rows[i]).table_name == CellView::Text(
                state.schema.tables[i].name,
            ),
{
}

/// Columns are only ever asked of a table that the table list named: the one
/// value bound to the query is the text of a listed row, the first that has no
/// table yet.
pub proof fn lemma_columns_asked_of_listed_table(state: PipelineView)
    requires
        state.well_formed(),
        state.pending() is ListColumns,
    ensures
        state.schema.tables.len() < state.rows.len(),
        state.pending() == ActionView::ListColumns(
            columns_query_view(state.current_table()),
        ),
        state.rows[state.schema.tables.len() as int].table_name == CellView::Text(
            state.current_table(),
        ),
{
}

/// Every row of the table list names its table, every column list and the
/// foreign-key list can be read, and there is one column list for each table.
pub open spec fn all_readable(
    rows: Seq<TableRowView>,
    columns: Seq<Seq<ColumnRowView>>,
    references: Seq<ReferenceRowView>,
) -> bool {
    &&& columns.len() == rows.len()
    &&& forall|i: int| 0 <= i < rows.len() ==> (#[trigger] rows[i]).table_name is Text
    &&& forall|i: int|
        0 <= i < columns.len() ==> collect(column_results(#[trigger] columns[i])) is Ok
    &&& collect(reference_results(references)) is Ok
}

/// The tables that the table list `rows` and the column lists `columns`
/// describe: one for each row, in row order, under the row's name and with
/// the columns of the column list at the same place.
pub open spec fn assembled_tables(
    rows: Seq<TableRowView>,
    columns: Seq<Seq<ColumnRowView>>,
) -> Seq<TableView> {
    Seq::new(
        rows.len(),
        |i: int|
            TableView {
                name: rows[i].table_name->Text_0,
                columns: collect(column_results(columns[i]))->Ok_0,
            },
    )
}

/// The events of a run in which everything succeeds, up to the first
/// `fetched` column lists: connected, the table list, then one column list
/// after the other.
pub open spec fn extraction_events(
    rows: Seq<TableRowView>,
    columns: Seq<Seq<ColumnRowView>>,
    fetched: nat,
) -> Seq<EventView> {
    seq![EventView::Connected, EventView::TableRows(rows)] + Seq::new(
        fetched,
        |i: int| EventView::ColumnRows(columns[i]),
    )
}

/// The state of a run that has the table list `rows` and the tables of the
/// first `fetched` rows.
pub open spec fn extraction_state(
    rows: Seq<TableRowView>,
    columns: Seq<Seq<ColumnRowView>>,
    fetched: nat,
) -> PipelineView {
    PipelineView {
        stage: if fetched < rows.len() {
            Stage::ExtractingTables
        } else {
            Stage::ExtractingReferences
        },
        listed: true,
        rows,
        schema: SchemaView {
            tables: assembled_tables(rows, columns).take(fetched as int),
            references: Seq::empty(),
        },
        error: None,
    }
}

/// While everything can be read, the run fetches the column lists in the
/// order of the table list and builds one table from each.
pub proof fn lemma_extraction_in_listing_order(
    rows: Seq<TableRowView>,
    columns: Seq<Seq<ColumnRowView>>,
    references: Seq<ReferenceRowView>,
    fetched: nat,
)
    requires
        all_readable(rows, columns, references),
        fetched <= rows.len(),
    ensures
        PipelineView::initial().run(extraction_events(rows, columns, fetched)) == extraction_state(
            rows,
            columns,
            fetched,
        ),
    decreases fetched,
{
    let start = PipelineView::initial();
    let events = extraction_events(rows, columns, fetched);
    if fetched == 0 {
        let none = Seq::<EventView>::empty();
        let one = seq![EventView::Connected];
        assert(events.drop_last() =~= one);
        assert(one.drop_last() =~= none);
        assert(start.run(none) == start);
        assert(start.run(one) == start.next(EventView::Connected));
        let connected = start.next(EventView::Connected);
        assert(events.last() == EventView::TableRows(rows));
        if rows.len() > 0 {
            assert(rows[0].table_name is Text);
        }
        assert(assembled_tables(rows, columns).take(0) =~= Seq::<TableView>::empty());
        assert(connected.next(EventView::TableRows(rows)) =~= extraction_state(rows, columns, 0));
    } else {
        let before = (fetched - 1) as nat;
        lemma_extraction_in_listing_order(rows, columns, references, before);
        assert(events.drop_last() =~= extraction_events(rows, columns, before));
        assert(events.last() == EventView::ColumnRows(columns[before as int]));
        let state = extraction_state(rows, columns, before);
        assert(rows[before as int].table_name is Text);
        assert(collect(column_results(columns[before as int])) is Ok);
        let read = collect(column_results(columns[before as int]))->Ok_0;
        assert(state.with_table(read).schema.tables =~= assembled_tables(rows, columns).take(
            fetched as int,
        ));
        if fetched < rows.len() {
            assert(rows[fetched as int].table_name is Text);
        }
        assert(state.next(events.last()) =~= extraction_state(rows, columns, fetched));
    }
}

/// A run in which everything succeeds assembles the schema that the catalog
/// describes, tables in the order of the table list and references in the
/// order of the foreign-key list, and then asks for the rendering of exactly
/// that schema to be written to the output file.
pub proof fn lemma_run_assembles(
    rows: Seq<TableRowView>,
    columns: Seq<Seq<ColumnRowView>>,
    references: Seq<ReferenceRowView>,
)
    requires
        all_readable(rows, columns, references),
    ensures
        ({
            let events = extraction_events(rows, columns, rows.len()).push(
                EventView::ReferenceRows(references),
            );
            let schema = SchemaView {
                tables: assembled_tables(rows, columns),
                references: collect(reference_results(references))->Ok_0,
            };
            let end = PipelineView::initial().run(events);
            &&& end.stage is WritingOutput
            &&& end.schema == schema
            &&& end.pending() == ActionView::WriteOutput {
                file_name: output_file_name(),
                contents: diagram_text(schema),
            }
            &&& end.next(EventView::Written).stage is Done
            &&& end.next(EventView::Written).pending() == ActionView::Finish(confirmation_line())
        }),
{
    let extracted = extraction_events(rows, columns, rows.len());
    let events = extracted.push(EventView::ReferenceRows(references));
    lemma_extraction_in_listing_order(rows, columns, references, rows.len());
    assert(events.drop_last() =~= extracted);
    assert(events.last() == EventView::ReferenceRows(references));
    let tables = assembled_tables(rows, columns);
    assert(tables.take(rows.len() as int) =~= tables);
}

/// A failure in a run that is not over ends it at once: the run has failed
/// with the error of the stage it was in, it keeps no part of a schema, and
/// what it asks for is to stop.
pub proof fn lemma_failure_ends_run(state: PipelineView, message: Seq<char>)
    requires
        !state.stage.is_final(),
    ensures
        state.next(EventView::Failure(message)) == PipelineView::failed(
            error_for(state.stage, message),
        ),
        state.next(EventView::Failure(message)).pending() == ActionView::Abort(
            error_for(state.stage, message),
        ),
{
}

/// A run that has failed stays as it is, whatever events follow.
pub proof fn lemma_failed_run_stays(state: PipelineView, events: Seq<EventView>)
    requires
        state.stage is Failed,
    ensures
        state.run(events) == state,
    decreases events.len(),
{
    if events.len() > 0 {
        lemma_failed_run_stays(state, events.drop_last());
    }
}

/// After a failure nothing more is asked of the catalog and nothing is
/// written: whatever events follow, the run asks only to stop, with the error
/// of that first failure.
pub proof fn lemma_nothing_after_failure(
    state: PipelineView,
    message: Seq<char>,
    later: Seq<EventView>,
)
    requires
        !state.stage.is_final(),
    ensures
        state.next(EventView::Failure(message)).run(later).pending() == ActionView::Abort(
            error_for(state.stage, message),
        ),
{
    lemma_failed_run_stays(state.next(EventView::Failure(message)), later);
}

/// A run: the state machine that sequences connecting, extracting, rendering
/// and writing.
#[derive(Debug)]
pub struct Pipeline {
    stage: Stage,
    listed: bool,
    rows: Vec<TableRow>,
    schema: DatabaseSchema,
    error: Option<PipelineError>,
}

impl View for Pipeline {
    type V = PipelineView;

    closed spec fn view(&self) -> PipelineView {
        PipelineView {
            stage: self.stage,
            listed: self.listed,
            rows: table_row_views(self.rows@),
            schema: self.schema@,
            error: match self.error {
                Some(e) => Some(e@),
                None => None,
            },
        }
    }
}

impl Pipeline {
    #[verifier::type_invariant]
    spec fn holds_together(self) -> bool {
        self@.well_formed()
    }

    /// A run at its start.
    pub fn new() -> (pipeline: Pipeline)
        ensures
            pipeline@ == PipelineView::initial(),
            pipeline@.well_formed(),
    {
        let rows: Vec<TableRow> = Vec::new();
        let schema = DatabaseSchema { tables: Vec::new(), references: Vec::new() };
        assert(table_row_views(rows@) =~= Seq::<TableRowView>::empty());
        assert(schema@.tables =~= Seq::<TableView>::empty());
        assert(schema@.references =~= Seq::<ReferenceView>::empty());
        Pipeline { stage: Stage::Connecting, listed: false, rows, schema, error: None }
    }

    /// The stage that the run is in.
    pub fn stage(&self) -> (stage: Stage)
        ensures
            stage == self@.stage,
    {
        self.stage
    }

    /// The schema as far as the run has assembled it.
    pub fn schema(&self) -> (schema: &DatabaseSchema)
        ensures
            schema@ == self@.schema,
    {
        &self.schema
    }

    /// The run that failed with `error`.
    fn failed(error: PipelineError) -> (pipeline: Pipeline)
        ensures
            pipeline@ == PipelineView::failed(error@),
    {
        let rows: Vec<TableRow> = Vec::new();
        let schema = DatabaseSchema { tables: Vec::new(), references: Vec::new() };
        assert(table_row_views(rows@) =~= Seq::<TableRowView>::empty());
        assert(schema@.tables =~= Seq::<TableView>::empty());
        assert(schema@.references =~= Seq::<ReferenceView>::empty());
        Pipeline { stage: Stage::Failed, listed: false, rows, schema, error: Some(error) }
    }

    /// The error for a failure in `stage` with the diagnostic `message`.
    fn error_in(stage: Stage, message: String) -> (error: PipelineError)
        ensures
            error@ == error_for(stage, message@),
    {
        match stage {
            Stage::Connecting => PipelineError::Connection(message),
            Stage::WritingOutput => PipelineError::OutputWrite(message),
            _ => PipelineError::CatalogQuery(message),
        }
    }

    /// The run that failed in `stage` on an event that answers nothing.
    fn unexpected(stage: Stage) -> (pipeline: Pipeline)
        ensures
            pipeline@ == PipelineView::failed(error_for(stage, unexpected_event_message())),
    {
        let message = String::from_str("the event does not answer the pending action");
        Pipeline::failed(Pipeline::error_in(stage, message))
    }

    /// The run with the table list `rows` and the tables of `schema` in hand.
    fn resume(rows: Vec<TableRow>, schema: DatabaseSchema) -> (pipeline: Pipeline)
        requires
            schema@.tables.len() <= rows@.len(),
            schema@.references.len() == 0,
            forall|i: int|
                0 <= i < schema@.tables.len() ==> (#[trigger] table_row_views(
                    rows@,
                )[i]).table_name == CellView::Text(schema@.tables[i].name),
        ensures
            pipeline@ == match (PipelineView {
                stage: Stage::ExtractingTables,
                listed: true,
                rows: table_row_views(rows@),
                schema: schema@,
                error: None,
            }).resumed() {
                Ok(state) => state,
                Err(e) => PipelineView::failed(e),
            },
    {
        let done: usize = schema.tables.len();
        if done < rows.len() {
            let unreadable: Option<PipelineError> = match rows[done].table_name.decode() {
                Ok(_) => None,
                Err(e) => Some(e),
            };
            match unreadable {
                None => Pipeline {
                    stage: Stage::ExtractingTables,
                    listed: true,
                    rows,
                    schema,
                    error: None,
                },
                Some(e) => Pipeline::failed(e),
            }
        } else {
            Pipeline { stage: Stage::ExtractingReferences, listed: true, rows, schema, error: None }
        }
    }

    /// The action that the run waits for.
    pub fn pending(&self) -> (action: Action)
        ensures
            action@ == self@.pending(),
    {
        proof {
            use_type_invariant(self);
        }
        match self.stage {
            Stage::Connecting => Action::Connect,
            Stage::ExtractingTables => {
                if self.listed {
                    match &self.rows[self.schema.tables.len()].table_name {
                        Cell::Text(name) => Action::ListColumns(columns_query(name.as_str())),
                        Cell::Unreadable(_) => vstd::pervasive::unreached(),
                    }
                } else {
                    Action::ListTables(tables_query())
                }
            },
            Stage::ExtractingReferences => Action::ListForeignKeys(foreign_keys_query()),
            Stage::Rendering | Stage::WritingOutput => Action::WriteOutput {
                file_name: String::from_str("schema.puml"),
                contents: generate_plantuml(&self.schema),
            },
            Stage::Done => Action::Finish(
                String::from_str("PlantUML script generated and saved to schema.puml"),
            ),
            Stage::Failed => match &self.error {
                Some(e) => Action::Abort(e.duplicate()),
                None => vstd::pervasive::unreached(),
            },
        }
    }

    /// The run after `event`.
    fn advance(self, event: Event) -> (next: Pipeline)
        ensures
            next@ == self@.next(event@),
    {
        proof {
            use_type_invariant(&self);
        }
        let Pipeline { stage, listed, rows, schema, error } = self;
        match stage {
            Stage::Done | Stage::Failed => {
                return Pipeline { stage, listed, rows, schema, error };
            },
            _ => {},
        }
        match event {
            Event::Failure(message) => Pipeline::failed(Pipeline::error_in(stage, message)),
            Event::Connected => match stage {
                Stage::Connecting => Pipeline {
                    stage: Stage::ExtractingTables,
                    listed,
                    rows,
                    schema,
                    error,
                },
                _ => Pipeline::unexpected(stage),
            },
            Event::TableRows(listing) => match stage {
                Stage::ExtractingTables => {
                    if listed {
                        Pipeline::unexpected(stage)
                    } else {
                        Pipeline::resume(listing, schema)
                    }
                },
                _ => Pipeline::unexpected(stage),
            },
            Event::ColumnRows(column_rows) => match stage {
                Stage::ExtractingTables => {
                    if listed {
                        Pipeline::add_table(rows, schema, column_rows)
                    } else {
                        Pipeline::unexpected(stage)
                    }
                },
                _ => Pipeline::unexpected(stage),
            },
            Event::ReferenceRows(reference_rows) => match stage {
                Stage::ExtractingReferences => match references_from_rows(&reference_rows) {
                    Ok(references) => {
                        let DatabaseSchema { tables, references: _ } = schema;
                        Pipeline {
                            stage: Stage::WritingOutput,
                            listed,
                            rows,
                            schema: DatabaseSchema { tables, references },
                            error,
                        }
                    },
                    Err(e) => Pipeline::failed(e),
                },
                _ => Pipeline::unexpected(stage),
            },
            Event::Written => match stage {
                Stage::WritingOutput => Pipeline { stage: Stage::Done, listed, rows, schema, error },
                _ => Pipeline::unexpected(stage),
            },
        }
    }

    /// The run with the column list of the current table in hand.
    fn add_table(rows: Vec<TableRow>, schema: DatabaseSchema, column_rows: Vec<ColumnRow>) -> (next:
        Pipeline)
        requires
            (PipelineView {
                stage: Stage::ExtractingTables,
                listed: true,
                rows: table_row_views(rows@),
                schema: schema@,
                error: None,
            }).well_formed(),
        ensures
            next@ == (PipelineView {
                stage: Stage::ExtractingTables,
                listed: true,
                rows: table_row_views(rows@),
                schema: schema@,
                error: None,
            }).next(EventView::ColumnRows(column_row_views(column_rows@))),
    {
        let ghost state = PipelineView {
            stage: Stage::ExtractingTables,
            listed: true,
            rows: table_row_views(rows@),
            schema: schema@,
            error: None,
        };
        let name = match rows[schema.tables.len()].table_name.decode() {
            Ok(name) => name,
            Err(_) => vstd::pervasive::unreached(),
        };
        match columns_from_rows(&column_rows) {
            Ok(columns) => {
                let ghost column_views = crate::model::column_views(columns@);
                let DatabaseSchema { tables, references } = schema;
                let mut tables = tables;
                tables.push(Table { name, columns });
                let schema = DatabaseSchema { tables, references };
                proof {
                    assert(schema@.tables =~= state.with_table(column_views).schema.tables);
                    assert(schema@ == state.with_table(column_views).schema);
                    lemma_next_well_formed(
                        state,
                        EventView::ColumnRows(column_row_views(column_rows@)),
                    );
                    assert forall|i: int| 0 <= i < schema@.tables.len() implies (
                    #[trigger] table_row_views(rows@)[i]).table_name == CellView::Text(
                        schema@.tables[i].name,
                    ) by {
                        if i < state.schema.tables.len() {
                            assert(state.rows[i].table_name == CellView::Text(
                                state.schema.tables[i].name,
                            ));
                        }
                    }
                }
                Pipeline::resume(rows, schema)
            },
            Err(e) => Pipeline::failed(e),
        }
    }

    /// Takes the outcome of the pending action and says what to do next.
    pub fn step(self, event: Event) -> (next: (Pipeline, Action))
        ensures
            next.0@ == self@.next(event@),
            next.0@.well_formed(),
            next.1@ == next.0@.pending(),
    {
        let pipeline = self.advance(event);
        let action = pipeline.pending();
        proof {
            use_type_invariant(&pipeline);
        }
        (pipeline, action)
    }
}

} // verus!
