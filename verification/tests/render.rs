use tsql_diagram::model::{Column, DatabaseSchema, Reference, Table};
use tsql_diagram::render::{generate_plantuml, push_column, push_reference, push_table};

fn column(name: &str, data_type: &str) -> Column {
    Column { name: name.to_string(), data_type: data_type.to_string() }
}

fn table(name: &str, columns: Vec<Column>) -> Table {
    Table { name: name.to_string(), columns }
}

fn reference(table: &str, column: &str, referenced_table: &str, referenced_column: &str) -> Reference {
    Reference {
        table: table.to_string(),
        column: column.to_string(),
        referenced_table: referenced_table.to_string(),
        referenced_column: referenced_column.to_string(),
    }
}

#[test]
fn empty_schema_is_the_two_markers() {
    let schema = DatabaseSchema { tables: vec![], references: vec![] };
    assert_eq!(generate_plantuml(&schema), "@startuml\n@enduml\n");
}

#[test]
fn one_table_without_references() {
    let schema = DatabaseSchema {
        tables: vec![table("Users", vec![column("Id", "int"), column("Name", "varchar")])],
        references: vec![],
    };
    assert_eq!(
        generate_plantuml(&schema),
        "@startuml\nclass Users {\n  Id : int\n  Name : varchar\n}\n@enduml\n"
    );
}

#[test]
fn two_tables_and_one_reference() {
    let schema = DatabaseSchema {
        tables: vec![
            table("Orders", vec![column("UserId", "int")]),
            table("Users", vec![column("Id", "int")]),
        ],
        references: vec![reference("Orders", "UserId", "Users", "Id")],
    };
    let text = generate_plantuml(&schema);
    assert_eq!(
        text,
        "@startuml\nclass Orders {\n  UserId : int\n}\nclass Users {\n  Id : int\n}\nOrders::UserId --> Users::Id : UserId\n@enduml\n"
    );
    let lines: Vec<&str> = text.lines().collect();
    assert_eq!(lines[7], "Orders::UserId --> Users::Id : UserId");
}

#[test]
fn class_block_has_one_body_line_per_column_in_order() {
    let t = table(
        "Invoice",
        vec![column("Id", "bigint"), column("Total", "decimal"), column("Due", "date")],
    );
    let mut out = String::new();
    push_table(&mut out, &t);
    let lines: Vec<&str> = out.lines().collect();
    assert_eq!(lines.len(), 3 + 2);
    assert_eq!(lines[0], "class Invoice {");
    assert_eq!(lines[1], "  Id : bigint");
    assert_eq!(lines[2], "  Total : decimal");
    assert_eq!(lines[3], "  Due : date");
    assert_eq!(lines[4], "}");
}

#[test]
fn class_block_of_a_table_without_columns() {
    let mut out = String::from("x");
    push_table(&mut out, &table("Empty", vec![]));
    assert_eq!(out, "xclass Empty {\n}\n");
}

#[test]
fn column_line_is_appended_to_what_is_there() {
    let mut out = String::from("head\n");
    push_column(&mut out, &column("Name", "nvarchar"));
    assert_eq!(out, "head\n  Name : nvarchar\n");
}

#[test]
fn relationship_line_names_all_four_and_repeats_the_column() {
    let mut out = String::new();
    push_reference(&mut out, &reference("A", "b", "C", "d"));
    assert_eq!(out, "A::b --> C::d : b\n");
}

#[test]
fn rendering_twice_gives_the_same_text() {
    let schema = DatabaseSchema {
        tables: vec![table("T", vec![column("a", "int")]), table("U", vec![])],
        references: vec![reference("T", "a", "U", "a")],
    };
    let first = generate_plantuml(&schema);
    let second = generate_plantuml(&schema);
    assert_eq!(first.as_bytes(), second.as_bytes());
}

#[test]
fn table_order_only_moves_class_blocks() {
    let a = table("A", vec![column("x", "int")]);
    let b = table("B", vec![column("y", "text"), column("z", "bit")]);
    let r = reference("A", "x", "B", "y");
    let one = DatabaseSchema { tables: vec![a.clone(), b.clone()], references: vec![r.clone()] };
    let two = DatabaseSchema { tables: vec![b, a], references: vec![r] };
    let block_a = "class A {\n  x : int\n}\n";
    let block_b = "class B {\n  y : text\n  z : bit\n}\n";
    let tail = "A::x --> B::y : x\n@enduml\n";
    assert_eq!(generate_plantuml(&one), format!("@startuml\n{}{}{}", block_a, block_b, tail));
    assert_eq!(generate_plantuml(&two), format!("@startuml\n{}{}{}", block_b, block_a, tail));
}

#[test]
fn duplicate_and_cyclic_references_are_kept() {
    let schema = DatabaseSchema {
        tables: vec![],
        references: vec![
            reference("A", "x", "B", "y"),
            reference("A", "x", "B", "y"),
            reference("B", "y", "A", "x"),
        ],
    };
    assert_eq!(
        generate_plantuml(&schema),
        "@startuml\nA::x --> B::y : x\nA::x --> B::y : x\nB::y --> A::x : y\n@enduml\n"
    );
}

#[test]
fn duplicate_tables_are_kept() {
    let schema = DatabaseSchema {
        tables: vec![table("T", vec![]), table("T", vec![])],
        references: vec![],
    };
    assert_eq!(generate_plantuml(&schema), "@startuml\nclass T {\n}\nclass T {\n}\n@enduml\n");
}

#[test]
fn unique_column_names_are_recognised() {
    assert!(table("T", vec![]).has_unique_column_names());
    assert!(table("T", vec![column("a", "int")]).has_unique_column_names());
    assert!(table("T", vec![column("a", "int"), column("b", "int")]).has_unique_column_names());
    assert!(!table("T", vec![column("a", "int"), column("b", "int"), column("a", "text")])
        .has_unique_column_names());
    assert!(!table("T", vec![column("a", "int"), column("a", "int")]).has_unique_column_names());
}
