use tsql_diagram::catalog::{
    columns_query, foreign_keys_query, tables_query, Cell, ColumnRow, ReferenceRow, TableRow,
};
use tsql_diagram::error::PipelineError;
use tsql_diagram::model::{Column, DatabaseSchema, Reference, Table};
use tsql_diagram::pipeline::{Action, Event, Pipeline, Stage};

fn text(value: &str) -> Cell {
    Cell::Text(value.to_string())
}

fn table_rows(names: &[&str]) -> Event {
    Event::TableRows(names.iter().map(|n| TableRow { table_name: text(n) }).collect())
}

fn column_rows(columns: &[(&str, &str)]) -> Event {
    Event::ColumnRows(
        columns
            .iter()
            .map(|(n, t)| ColumnRow { column_name: text(n), data_type: text(t) })
            .collect(),
    )
}

fn failure(diagnostic: &str) -> Event {
    Event::Failure(diagnostic.to_string())
}

#[test]
fn a_run_starts_by_connecting() {
    let pipeline = Pipeline::new();
    assert_eq!(pipeline.stage(), Stage::Connecting);
    assert_eq!(pipeline.pending(), Action::Connect);
    assert_eq!(pipeline.schema(), &DatabaseSchema { tables: vec![], references: vec![] });
}

#[test]
fn a_whole_run_assembles_renders_and_finishes() {
    let pipeline = Pipeline::new();
    let (pipeline, action) = pipeline.step(Event::Connected);
    assert_eq!(pipeline.stage(), Stage::ExtractingTables);
    assert_eq!(action, Action::ListTables(tables_query()));

    let (pipeline, action) = pipeline.step(table_rows(&["Orders", "Users"]));
    assert_eq!(pipeline.stage(), Stage::ExtractingTables);
    assert_eq!(action, Action::ListColumns(columns_query("Orders")));

    let (pipeline, action) = pipeline.step(column_rows(&[("UserId", "int")]));
    assert_eq!(pipeline.stage(), Stage::ExtractingTables);
    assert_eq!(action, Action::ListColumns(columns_query("Users")));

    let (pipeline, action) = pipeline.step(column_rows(&[("Id", "int")]));
    assert_eq!(pipeline.stage(), Stage::ExtractingReferences);
    assert_eq!(action, Action::ListForeignKeys(foreign_keys_query()));

    let (pipeline, action) = pipeline.step(Event::ReferenceRows(vec![ReferenceRow {
        table: text("Orders"),
        column: text("UserId"),
        referenced_table: text("Users"),
        referenced_column: text("Id"),
    }]));
    assert_eq!(pipeline.stage(), Stage::WritingOutput);
    assert_eq!(
        action,
        Action::WriteOutput {
            file_name: "schema.puml".to_string(),
            contents: "@startuml\nclass Orders {\n  UserId : int\n}\nclass Users {\n  Id : int\n}\nOrders::UserId --> Users::Id : UserId\n@enduml\n".to_string(),
        }
    );
    assert_eq!(
        pipeline.schema(),
        &DatabaseSchema {
            tables: vec![
                Table {
                    name: "Orders".to_string(),
                    columns: vec![Column { name: "UserId".to_string(), data_type: "int".to_string() }],
                },
                Table {
                    name: "Users".to_string(),
                    columns: vec![Column { name: "Id".to_string(), data_type: "int".to_string() }],
                },
            ],
            references: vec![Reference {
                table: "Orders".to_string(),
                column: "UserId".to_string(),
                referenced_table: "Users".to_string(),
                referenced_column: "Id".to_string(),
            }],
        }
    );

    let (pipeline, action) = pipeline.step(Event::Written);
    assert_eq!(pipeline.stage(), Stage::Done);
    assert_eq!(
        action,
        Action::Finish("PlantUML script generated and saved to schema.puml".to_string())
    );

    let (pipeline, action) = pipeline.step(Event::Connected);
    assert_eq!(pipeline.stage(), Stage::Done);
    assert_eq!(
        action,
        Action::Finish("PlantUML script generated and saved to schema.puml".to_string())
    );
}

#[test]
fn a_database_without_tables_goes_straight_to_the_foreign_keys() {
    let (pipeline, _) = Pipeline::new().step(Event::Connected);
    let (pipeline, action) = pipeline.step(table_rows(&[]));
    assert_eq!(pipeline.stage(), Stage::ExtractingReferences);
    assert_eq!(action, Action::ListForeignKeys(foreign_keys_query()));
    let (pipeline, action) = pipeline.step(Event::ReferenceRows(vec![]));
    assert_eq!(pipeline.stage(), Stage::WritingOutput);
    assert_eq!(
        action,
        Action::WriteOutput {
            file_name: "schema.puml".to_string(),
            contents: "@startuml\n@enduml\n".to_string(),
        }
    );
}

#[test]
fn failure_at_the_second_of_three_tables_stops_the_run() {
    let (pipeline, _) = Pipeline::new().step(Event::Connected);
    let (pipeline, _) = pipeline.step(table_rows(&["A", "B", "C"]));
    let (pipeline, action) = pipeline.step(column_rows(&[("x", "int")]));
    assert_eq!(action, Action::ListColumns(columns_query("B")));

    let (mut pipeline, action) = pipeline.step(failure("connection lost"));
    let error = PipelineError::CatalogQuery("connection lost".to_string());
    assert_eq!(pipeline.stage(), Stage::Failed);
    assert_eq!(action, Action::Abort(error.clone()));
    assert_eq!(pipeline.schema(), &DatabaseSchema { tables: vec![], references: vec![] });

    let later = vec![
        column_rows(&[("y", "int")]),
        column_rows(&[("z", "int")]),
        Event::ReferenceRows(vec![]),
        Event::Written,
        Event::Connected,
        failure("again"),
    ];
    for event in later {
        let (next, action) = pipeline.step(event);
        assert_eq!(next.stage(), Stage::Failed);
        assert_eq!(action, Action::Abort(error.clone()));
        pipeline = next;
    }
}

#[test]
fn failure_while_connecting_is_a_connection_error() {
    let (pipeline, action) = Pipeline::new().step(failure("login failed"));
    assert_eq!(pipeline.stage(), Stage::Failed);
    assert_eq!(action, Action::Abort(PipelineError::Connection("login failed".to_string())));
}

#[test]
fn failure_of_the_table_list_is_a_catalog_query_error() {
    let (pipeline, _) = Pipeline::new().step(Event::Connected);
    let (pipeline, action) = pipeline.step(failure("rejected"));
    assert_eq!(pipeline.stage(), Stage::Failed);
    assert_eq!(action, Action::Abort(PipelineError::CatalogQuery("rejected".to_string())));
}

#[test]
fn failure_of_the_foreign_key_list_is_a_catalog_query_error() {
    let (pipeline, _) = Pipeline::new().step(Event::Connected);
    let (pipeline, _) = pipeline.step(table_rows(&[]));
    let (pipeline, action) = pipeline.step(failure("no permission"));
    assert_eq!(pipeline.stage(), Stage::Failed);
    assert_eq!(action, Action::Abort(PipelineError::CatalogQuery("no permission".to_string())));
}

#[test]
fn failure_while_writing_is_an_output_write_error() {
    let (pipeline, _) = Pipeline::new().step(Event::Connected);
    let (pipeline, _) = pipeline.step(table_rows(&[]));
    let (pipeline, _) = pipeline.step(Event::ReferenceRows(vec![]));
    let (pipeline, action) = pipeline.step(failure("read-only directory"));
    assert_eq!(pipeline.stage(), Stage::Failed);
    assert_eq!(
        action,
        Action::Abort(PipelineError::OutputWrite("read-only directory".to_string()))
    );
}

#[test]
fn unreadable_table_name_fails_when_its_turn_comes() {
    let (pipeline, _) = Pipeline::new().step(Event::Connected);
    let rows = vec![
        TableRow { table_name: text("A") },
        TableRow { table_name: Cell::Unreadable("not text".to_string()) },
        TableRow { table_name: text("C") },
    ];
    let (pipeline, action) = pipeline.step(Event::TableRows(rows));
    assert_eq!(action, Action::ListColumns(columns_query("A")));
    let (pipeline, action) = pipeline.step(column_rows(&[("x", "int")]));
    assert_eq!(pipeline.stage(), Stage::Failed);
    assert_eq!(action, Action::Abort(PipelineError::CatalogQuery("not text".to_string())));
}

#[test]
fn unreadable_first_table_name_fails_at_once() {
    let (pipeline, _) = Pipeline::new().step(Event::Connected);
    let rows = vec![TableRow { table_name: Cell::Unreadable("null".to_string()) }];
    let (pipeline, action) = pipeline.step(Event::TableRows(rows));
    assert_eq!(pipeline.stage(), Stage::Failed);
    assert_eq!(action, Action::Abort(PipelineError::CatalogQuery("null".to_string())));
}

#[test]
fn unreadable_column_row_fails_the_run() {
    let (pipeline, _) = Pipeline::new().step(Event::Connected);
    let (pipeline, _) = pipeline.step(table_rows(&["A", "B"]));
    let rows = vec![
        ColumnRow { column_name: text("x"), data_type: text("int") },
        ColumnRow { column_name: text("y"), data_type: Cell::Unreadable("bad type".to_string()) },
    ];
    let (pipeline, action) = pipeline.step(Event::ColumnRows(rows));
    assert_eq!(pipeline.stage(), Stage::Failed);
    assert_eq!(action, Action::Abort(PipelineError::CatalogQuery("bad type".to_string())));
}

#[test]
fn unreadable_reference_row_fails_the_run() {
    let (pipeline, _) = Pipeline::new().step(Event::Connected);
    let (pipeline, _) = pipeline.step(table_rows(&[]));
    let rows = vec![ReferenceRow {
        table: text("A"),
        column: Cell::Unreadable("bad column".to_string()),
        referenced_table: text("B"),
        referenced_column: text("y"),
    }];
    let (pipeline, action) = pipeline.step(Event::ReferenceRows(rows));
    assert_eq!(pipeline.stage(), Stage::Failed);
    assert_eq!(action, Action::Abort(PipelineError::CatalogQuery("bad column".to_string())));
}

#[test]
fn an_event_that_answers_nothing_fails_the_run() {
    let (pipeline, action) = Pipeline::new().step(Event::Written);
    assert_eq!(pipeline.stage(), Stage::Failed);
    assert_eq!(
        action,
        Action::Abort(PipelineError::Connection(
            "the event does not answer the pending action".to_string()
        ))
    );

    let (pipeline, _) = Pipeline::new().step(Event::Connected);
    let (pipeline, action) = pipeline.step(column_rows(&[("x", "int")]));
    assert_eq!(pipeline.stage(), Stage::Failed);
    assert_eq!(
        action,
        Action::Abort(PipelineError::CatalogQuery(
            "the event does not answer the pending action".to_string()
        ))
    );

    let (pipeline, _) = Pipeline::new().step(Event::Connected);
    let (pipeline, _) = pipeline.step(table_rows(&["A"]));
    let (pipeline, action) = pipeline.step(table_rows(&["B"]));
    assert_eq!(pipeline.stage(), Stage::Failed);
    assert_eq!(
        action,
        Action::Abort(PipelineError::CatalogQuery(
            "the event does not answer the pending action".to_string()
        ))
    );
}

#[test]
fn pending_repeats_the_action_of_the_last_step() {
    let (pipeline, _) = Pipeline::new().step(Event::Connected);
    let (pipeline, action) = pipeline.step(table_rows(&["Only"]));
    assert_eq!(pipeline.pending(), action);
    assert_eq!(action, Action::ListColumns(columns_query("Only")));
}

#[test]
fn tables_keep_the_order_of_the_table_list() {
    let (pipeline, _) = Pipeline::new().step(Event::Connected);
    let (pipeline, _) = pipeline.step(table_rows(&["Zebra", "Apple", "Zebra"]));
    let (pipeline, _) = pipeline.step(column_rows(&[("b", "int"), ("a", "int")]));
    let (pipeline, _) = pipeline.step(column_rows(&[]));
    let (pipeline, action) = pipeline.step(column_rows(&[("c", "bit")]));
    assert_eq!(action, Action::ListForeignKeys(foreign_keys_query()));
    let names: Vec<&str> = pipeline.schema().tables.iter().map(|t| t.name.as_str()).collect();
    assert_eq!(names, vec!["Zebra", "Apple", "Zebra"]);
    let first: Vec<&str> =
        pipeline.schema().tables[0].columns.iter().map(|c| c.name.as_str()).collect();
    assert_eq!(first, vec!["b", "a"]);
    assert!(pipeline.schema().tables[1].columns.is_empty());
}
