use ellefuanti::database::{
    key_in_cell, BeginEdit, CellKey, ColumnInfo, Database, Grid, SchemaBody, TableInfo, TablePage,
};
use ellefuanti::theme::ThemeVariant;

fn column(name: &str, primary_key: bool, nullable: bool) -> ColumnInfo {
    ColumnInfo {
        name: name.to_string(),
        column_type: "TEXT".to_string(),
        primary_key,
        nullable,
    }
}

fn schema() -> Vec<TableInfo> {
    vec![
        TableInfo {
            name: "users".to_string(),
            columns: vec![column("id", true, false), column("name", false, true)],
        },
        TableInfo { name: "posts".to_string(), columns: vec![] },
    ]
}

fn page(rowids: Vec<Option<i64>>) -> TablePage {
    TablePage {
        columns: vec!["id".to_string(), "name".to_string()],
        rows: vec![
            vec!["1".to_string(), "Ana".to_string()],
            vec!["2".to_string(), "NULL".to_string()],
        ],
        rowids,
        total: 2,
    }
}

fn opened(rowids: Vec<Option<i64>>) -> Database {
    let mut database = Database::new();
    database.schema_read(Some(Ok(schema())));
    database.open("users");
    database.page_read(Some(Ok(("users".to_string(), page(rowids)))));
    database
}

fn labels(database: &Database) -> Vec<String> {
    match database.render_db_panel() {
        SchemaBody::Message(message) => vec![message],
        SchemaBody::Tables(tables) => {
            let mut all = vec![];
            for table in tables {
                all.push(table.label);
                all.extend(table.columns);
            }
            all
        }
    }
}

#[test]
fn the_schema_says_how_far_it_is() {
    let mut database = Database::new();
    assert_eq!(labels(&database), vec!["Reading the database schema…"]);
    assert!(!database.has_header_buttons());
    database.schema_read(Some(Err("locked".to_string())));
    assert_eq!(labels(&database), vec!["locked"]);
    database.schema_read(Some(Ok(vec![])));
    assert_eq!(labels(&database), vec!["The database has no tables"]);
    database.schema_read(None);
    assert_eq!(
        labels(&database),
        vec!["No sqlite database found (.env names another driver, or the file does not exist)"]
    );
    database.schema_read(Some(Ok(schema())));
    assert_eq!(labels(&database), vec!["▸ users", "▸ posts"]);
    assert!(database.has_header_buttons());
}

#[test]
fn a_table_shows_its_columns_once_it_is_open() {
    let mut database = opened(vec![Some(1), Some(2)]);
    database.toggle("users");
    assert_eq!(labels(&database), vec!["▾ users", "  id  TEXT  pk", "  name  TEXT  ?", "▸ posts"]);
    assert!(database.is_expanded("users"));
    database.toggle("users");
    assert_eq!(labels(&database), vec!["▸ users", "▸ posts"]);
    database.expand_all();
    assert!(database.is_expanded("users") && database.is_expanded("posts"));
    database.collapse_all();
    assert!(!database.is_expanded("users") && !database.is_expanded("posts"));
    database.expand_all();
    database.schema_read(Some(Ok(schema())));
    assert!(!database.is_expanded("users"), "a schema that was read anew is folded");
}

#[test]
fn a_cell_is_edited_and_written_by_its_rowid() {
    let mut database = opened(vec![Some(11), Some(12)]);
    assert_eq!(database.begin_edit(0, 1), BeginEdit::Editing);
    database.edit_backspace();
    database.edit_typed("ita");
    let write = database.edit_commit().expect("a write");
    assert_eq!(write.table, "users");
    assert_eq!(write.column, "name");
    assert_eq!(write.rowid, 11);
    assert_eq!(write.value, "Anita");
    assert!(database.edit_commit().is_none(), "there is nothing left to write");
}

#[test]
fn a_null_cell_starts_out_empty() {
    let mut database = opened(vec![Some(11), Some(12)]);
    assert_eq!(database.begin_edit(1, 1), BeginEdit::Editing);
    database.edit_typed("Bo");
    assert_eq!(database.edit_commit().map(|write| write.value).as_deref(), Some("Bo"));
}

#[test]
fn a_row_without_a_rowid_is_read_only() {
    let mut database = opened(vec![None, None]);
    assert_eq!(database.begin_edit(0, 1), BeginEdit::ReadOnly);
    assert!(database.edit_commit().is_none());
    let mut fresh = Database::new();
    assert_eq!(fresh.begin_edit(0, 0), BeginEdit::NoRows);
}

#[test]
fn leaving_a_cell_writes_nothing() {
    let mut database = opened(vec![Some(11), Some(12)]);
    database.begin_edit(0, 1);
    database.edit_typed("x");
    database.edit_cancel();
    assert!(database.edit_commit().is_none());
}

#[test]
fn the_grid_shows_the_rows_and_the_cell_in_its_editor() {
    let theme = ThemeVariant::Dark.build();
    let mut database = opened(vec![Some(11), Some(12)]);
    database.begin_edit(1, 0);
    database.edit_typed("!");
    match database.render_db_table_view(&theme) {
        Grid::Rows { header, columns, rows } => {
            assert_eq!(header, "users  —  2 row(s)");
            assert_eq!(columns[1].text, "name");
            assert_eq!(columns[1].background, Some(theme.panel));
            assert_eq!(rows[0][1].text, "Ana");
            assert_eq!(rows[0][1].background, None);
            assert!(rows[0][1].clickable);
            assert_eq!(rows[1][0].text, "2!");
            assert_eq!(rows[1][0].border, Some(theme.accent));
            assert!(!rows[1][0].clickable);
            assert_eq!(rows[1][1].background, Some(theme.hover), "every second row is striped");
        }
        _ => panic!("rows were read"),
    }
}

#[test]
fn a_long_table_says_that_it_is_cut() {
    let theme = ThemeVariant::Dark.build();
    let mut database = Database::new();
    let mut long = page(vec![Some(1), Some(2)]);
    long.total = 201;
    database.page_read(Some(Ok(("users".to_string(), long))));
    match database.render_db_table_view(&theme) {
        Grid::Rows { header, .. } => {
            assert_eq!(header, "users  —  201 row(s), showing first page")
        }
        _ => panic!("rows were read"),
    }
}

#[test]
fn a_table_that_cannot_be_read_says_why() {
    let theme = ThemeVariant::Dark.build();
    let mut database = opened(vec![Some(11), Some(12)]);
    assert_eq!(database.insert_target().as_deref(), Some("users"));
    database.page_read(Some(Err("no such table".to_string())));
    assert!(matches!(
        database.render_db_table_view(&theme),
        Grid::Message(message) if message == "no such table"
    ));
    assert_eq!(database.insert_target(), None);
    database.page_read(None);
    assert!(matches!(
        database.render_db_table_view(&theme),
        Grid::Message(message) if message == "no sqlite database"
    ));
    assert!(matches!(Database::new().render_db_table_view(&theme), Grid::Nothing));
}

#[test]
fn the_keys_of_a_cell() {
    assert_eq!(key_in_cell("enter", Some("\n")), CellKey::Commit);
    assert_eq!(key_in_cell("escape", None), CellKey::Cancel);
    assert_eq!(key_in_cell("backspace", None), CellKey::Backspace);
    assert_eq!(key_in_cell("a", Some("a")), CellKey::Type);
    assert_eq!(key_in_cell("tab", Some("\t")), CellKey::Nothing);
    assert_eq!(key_in_cell("left", None), CellKey::Nothing);
    assert_eq!(key_in_cell("x", Some("")), CellKey::Nothing);
}
