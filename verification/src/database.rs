//! The database panel: the schema, the rows of one table, and the one cell
//! that can be edited at a time.

use vstd::prelude::*;
use vstd::string::*;

use crate::text;
use crate::text::{
    chars_of, contains_text, decimal_text, join2, join3, owned, same, text_of,
};
use crate::theme::Theme;

verus! {

broadcast use vstd::seq::group_seq_axioms;

/// How many rows of a table are read: a screenful, not the whole table.
pub const DB_PAGE_SIZE: u64 = 200;

/// How wide a cell of the grid is, in pixels, so that one wide column cannot
/// push the others off the screen.
pub const DB_CELL_WIDTH: u32 = 180;

/// A column of a table.
pub struct ColumnInfo {
    pub name: String,
    pub column_type: String,
    pub primary_key: bool,
    pub nullable: bool,
}

/// A table of the schema.
pub struct TableInfo {
    pub name: String,
    pub columns: Vec<ColumnInfo>,
}

/// Some rows of a table.
pub struct TablePage {
    pub columns: Vec<String>,
    pub rows: Vec<Vec<String>>,
    /// What a row is addressed by, where it has one.
    pub rowids: Vec<Option<i64>>,
    /// How many rows the whole table has.
    pub total: u64,
}

/// A column as contracts see it.
pub struct ColumnView {
    pub name: Seq<char>,
    pub column_type: Seq<char>,
    pub primary_key: bool,
    pub nullable: bool,
}

/// A table as contracts see it.
pub struct TableView {
    pub name: Seq<char>,
    pub columns: Seq<ColumnView>,
}

/// A page as contracts see it.
#[verifier::ext_equal]
pub struct PageView {
    pub columns: Seq<Seq<char>>,
    pub rows: Seq<Seq<Seq<char>>>,
    pub rowids: Seq<Option<i64>>,
    pub total: u64,
}

impl vstd::view::DeepView for ColumnInfo {
    type V = ColumnView;

    open spec fn deep_view(&self) -> ColumnView {
        ColumnView {
            name: self.name@,
            column_type: self.column_type@,
            primary_key: self.primary_key,
            nullable: self.nullable,
        }
    }
}

impl vstd::view::DeepView for TableInfo {
    type V = TableView;

    open spec fn deep_view(&self) -> TableView {
        TableView { name: self.name@, columns: self.columns.deep_view() }
    }
}

impl View for TablePage {
    type V = PageView;

    open spec fn view(&self) -> PageView {
        PageView {
            columns: self.columns.deep_view(),
            rows: self.rows.deep_view(),
            rowids: self.rowids@,
            total: self.total,
        }
    }
}

/// The panel's state.
pub struct Database {
    /// `None` before the first read, then the tables or why there are none.
    pub schema: Option<Result<Vec<TableInfo>, String>>,
    /// The tables that show their columns.
    pub expanded: Vec<String>,
    /// The table whose rows fill the editor area.
    pub table: Option<(String, Result<TablePage, String>)>,
    /// The cell being edited: its row, its column and what is typed.
    pub editing: Option<(usize, usize, String)>,
}

/// The panel's state as contracts see it.
#[verifier::ext_equal]
pub struct DatabaseView {
    pub schema: Option<Result<Seq<TableView>, Seq<char>>>,
    pub expanded: Set<Seq<char>>,
    pub table: Option<(Seq<char>, Result<PageView, Seq<char>>)>,
    pub editing: Option<(usize, usize, Seq<char>)>,
}

/// The tables that were read, or why none were.
pub open spec fn schema_view(read: Result<Vec<TableInfo>, String>) -> Result<
    Seq<TableView>,
    Seq<char>,
> {
    match read {
        Ok(tables) => Ok(tables.deep_view()),
        Err(message) => Err(message@),
    }
}

/// The rows that were read, or why none were.
pub open spec fn page_view(read: Result<TablePage, String>) -> Result<PageView, Seq<char>> {
    match read {
        Ok(page) => Ok(page@),
        Err(message) => Err(message@),
    }
}

impl View for Database {
    type V = DatabaseView;

    open spec fn view(&self) -> DatabaseView {
        DatabaseView {
            schema: match self.schema {
                Some(read) => Some(schema_view(read)),
                None => None,
            },
            expanded: self.expanded.deep_view().to_set(),
            table: match self.table {
                Some((name, page)) => Some((name@, page_view(page))),
                None => None,
            },
            editing: match self.editing {
                Some((row, column, buffer)) => Some((row, column, buffer@)),
                None => None,
            },
        }
    }
}

/// What a click on a cell comes to.
#[derive(Clone, Copy, PartialEq, Eq, Structural, Debug)]
pub enum BeginEdit {
    /// No rows are open.
    NoRows,
    /// The row cannot be addressed.
    ReadOnly,
    Editing,
}

/// A cell to write.
pub struct CellWrite {
    pub table: String,
    pub column: String,
    pub rowid: i64,
    pub value: String,
}

/// A cell to write, as contracts see it.
pub struct CellView {
    pub table: Seq<char>,
    pub column: Seq<char>,
    pub rowid: i64,
    pub value: Seq<char>,
}

impl vstd::view::DeepView for CellWrite {
    type V = CellView;

    open spec fn deep_view(&self) -> CellView {
        CellView {
            table: self.table@,
            column: self.column@,
            rowid: self.rowid,
            value: self.value@,
        }
    }
}

/// The names of the tables.
pub open spec fn table_names(tables: Seq<TableView>) -> Seq<Seq<char>> {
    Seq::new(tables.len(), |i: int| tables[i].name)
}

/// A page of no rows, shown until the rows are read.
pub open spec fn empty_page() -> PageView {
    PageView { columns: Seq::empty(), rows: Seq::empty(), rowids: Seq::empty(), total: 0 }
}

impl PageView {
    /// What a row is addressed by.
    pub open spec fn rowid(self, row: int) -> Option<i64> {
        if 0 <= row < self.rowids.len() {
            self.rowids[row]
        } else {
            None
        }
    }

    /// What the editor of a cell starts from: the cell's text, and nothing for
    /// a cell that is null or absent.
    pub open spec fn seed(self, row: int, column: int) -> Seq<char> {
        if 0 <= row < self.rows.len() && 0 <= column < self.rows[row].len()
            && self.rows[row][column] != "NULL"@ {
            self.rows[row][column]
        } else {
            Seq::empty()
        }
    }
}

impl DatabaseView {
    /// A panel that has read nothing.
    pub open spec fn fresh() -> DatabaseView {
        DatabaseView { schema: None, expanded: Set::empty(), table: None, editing: None }
    }

    /// The rows that are open.
    pub open spec fn page(self) -> Option<PageView> {
        match self.table {
            Some((_, Ok(page))) => Some(page),
            _ => None,
        }
    }

    /// With a table's columns shown, or hidden if they were.
    pub open spec fn toggled(self, name: Seq<char>) -> DatabaseView {
        DatabaseView {
            expanded: if self.expanded.contains(name) {
                self.expanded.remove(name)
            } else {
                self.expanded.insert(name)
            },
            ..self
        }
    }

    /// With the columns of every table shown.
    pub open spec fn all_expanded(self) -> DatabaseView {
        match self.schema {
            Some(Ok(tables)) => DatabaseView { expanded: table_names(tables).to_set(), ..self },
            _ => self,
        }
    }

    /// With no columns shown.
    pub open spec fn all_collapsed(self) -> DatabaseView {
        DatabaseView { expanded: Set::empty(), ..self }
    }

    /// With a table picked and its rows still to come.
    pub open spec fn opened(self, table: Seq<char>) -> DatabaseView {
        DatabaseView { table: Some((table, Ok(empty_page()))), editing: None, ..self }
    }

    /// What a click on a cell comes to.
    pub open spec fn begin(self, row: int) -> BeginEdit {
        match self.page() {
            None => BeginEdit::NoRows,
            Some(page) => if page.rowid(row) is None {
                BeginEdit::ReadOnly
            } else {
                BeginEdit::Editing
            },
        }
    }

    /// With a cell in its editor, where it can be.
    pub open spec fn edited(self, row: usize, column: usize) -> DatabaseView {
        if self.begin(row as int) is Editing {
            DatabaseView {
                editing: Some((row, column, self.page()->0.seed(row as int, column as int))),
                ..self
            }
        } else {
            self
        }
    }

    /// With more typed into the cell.
    pub open spec fn typed(self, more: Seq<char>) -> DatabaseView {
        match self.editing {
            Some((row, column, buffer)) => DatabaseView {
                editing: Some((row, column, buffer + more)),
                ..self
            },
            None => self,
        }
    }

    /// With the last character of the cell erased.
    pub open spec fn erased(self) -> DatabaseView {
        match self.editing {
            Some((row, column, buffer)) => DatabaseView {
                editing: Some(
                    (
                        row,
                        column,
                        if buffer.len() > 0 {
                            buffer.drop_last()
                        } else {
                            buffer
                        },
                    ),
                ),
                ..self
            },
            None => self,
        }
    }

    /// With no cell in its editor.
    pub open spec fn released(self) -> DatabaseView {
        DatabaseView { editing: None, ..self }
    }

    /// What committing the cell would write.
    pub open spec fn write(self) -> Option<CellView> {
        match (self.editing, self.table) {
            (Some((row, column, buffer)), Some((table, Ok(page)))) => match page.rowid(
                row as int,
            ) {
                Some(rowid) if column < page.columns.len() => Some(
                    CellView { table, column: page.columns[column as int], rowid, value: buffer },
                ),
                _ => None,
            },
            _ => None,
        }
    }

    /// The table that a new row would go into.
    pub open spec fn insert_into(self) -> Option<Seq<char>> {
        match self.table {
            Some((table, Ok(_))) => Some(table),
            _ => None,
        }
    }

    /// After the schema was read: the columns are hidden again. `None` is a
    /// project without a database to read.
    pub open spec fn with_schema(
        self,
        read: Option<Result<Seq<TableView>, Seq<char>>>,
    ) -> DatabaseView {
        DatabaseView {
            schema: match read {
                Some(found) => Some(found),
                None => Some(
                    Err(
                        "No sqlite database found (.env names another driver, or the file does not exist)"@,
                    ),
                ),
            },
            expanded: Set::empty(),
            ..self
        }
    }

    /// After rows were read. A failure keeps the name of the table that is
    /// open. `None` is a project without a database to read.
    pub open spec fn with_page(
        self,
        read: Option<Result<(Seq<char>, PageView), Seq<char>>>,
    ) -> DatabaseView {
        let name = match self.table {
            Some((open, _)) => open,
            None => Seq::empty(),
        };
        DatabaseView {
            table: match read {
                Some(Ok((table, page))) => Some((table, Ok(page))),
                Some(Err(message)) => Some((name, Err(message))),
                None => Some((name, Err("no sqlite database"@))),
            },
            ..self
        }
    }
}

impl Database {
    /// A panel that has read nothing.
    pub fn new() -> (database: Self)
        ensures
            database@ == DatabaseView::fresh(),
    {
        let expanded: Vec<String> = Vec::new();
        assert(expanded.deep_view().to_set() =~= Set::empty());
        Database { schema: None, expanded, table: None, editing: None }
    }

    /// Whether a table shows its columns.
    pub fn is_expanded(&self, name: &str) -> (held: bool)
        ensures
            held == self@.expanded.contains(name@),
    {
        let held = contains_text(&self.expanded, name);
        proof {
            let names = self.expanded.deep_view();
            if held {
                let i = choose|i: int|
                    0 <= i < self.expanded.len() && (#[trigger] self.expanded[i])@ == name@;
                assert(names[i] == name@);
            }
            if names.contains(name@) {
                let i = choose|i: int| 0 <= i < names.len() && names[i] == name@;
                assert(self.expanded[i]@ == name@);
            }
        }
        held
    }

    /// Shows a table's columns, or hides them.
    pub fn toggle(&mut self, name: &str)
        ensures
            final(self)@ == old(self)@.toggled(name@),
    {
        let ghost before = self.expanded.deep_view();
        if self.is_expanded(name) {
            let mut kept: Vec<String> = Vec::new();
            let mut i: usize = 0;
            assert(before.take(0).to_set().remove(name@) =~= Set::empty());
            assert(kept.deep_view().to_set() =~= Set::empty());
            while i < self.expanded.len()
                invariant
                    i <= self.expanded.len(),
                    *self == *old(self),
                    before == self.expanded.deep_view(),
                    kept.deep_view().to_set() == before.take(i as int).to_set().remove(name@),
                decreases self.expanded.len() - i,
            {
                let ghost gathered = kept.deep_view();
                assert(before[i as int] == self.expanded[i as int]@);
                assert(before.take(i + 1) =~= before.take(i as int).push(before[i as int]));
                proof {
                    lemma_push_set(before.take(i as int), before[i as int]);
                }
                if !same(self.expanded[i].as_str(), name) {
                    kept.push(self.expanded[i].clone());
                    assert(kept.deep_view() =~= gathered.push(before[i as int]));
                    proof {
                        lemma_push_set(gathered, before[i as int]);
                    }
                }
                assert(kept.deep_view().to_set() =~= before.take(i + 1).to_set().remove(name@));
                i += 1;
            }
            assert(before.take(i as int) =~= before);
            self.expanded = kept;
        } else {
            self.expanded.push(owned(name));
            assert(self.expanded.deep_view() =~= before.push(name@));
            proof {
                lemma_push_set(before, name@);
            }
        }
    }

    /// Shows the columns of every table.
    pub fn expand_all(&mut self)
        ensures
            final(self)@ == old(self)@.all_expanded(),
    {
        let mut names: Vec<String> = Vec::new();
        let read = match &self.schema {
            Some(Ok(tables)) => {
                let mut i: usize = 0;
                assert(names.deep_view() =~= table_names(tables.deep_view()).take(0));
                while i < tables.len()
                    invariant
                        i <= tables.len(),
                        names.deep_view() == table_names(tables.deep_view()).take(i as int),
                    decreases tables.len() - i,
                {
                    let ghost gathered = names.deep_view();
                    names.push(tables[i].name.clone());
                    assert(names.deep_view() =~= gathered.push(tables[i as int].name@));
                    assert(table_names(tables.deep_view()).take(i + 1) =~= gathered.push(
                        tables[i as int].name@,
                    ));
                    i += 1;
                }
                assert(names.deep_view() =~= table_names(tables.deep_view()));
                true
            },
            _ => false,
        };
        if read {
            self.expanded = names;
        }
    }

    /// Hides the columns of every table.
    pub fn collapse_all(&mut self)
        ensures
            final(self)@ == old(self)@.all_collapsed(),
    {
        self.expanded = Vec::new();
        assert(self.expanded.deep_view().to_set() =~= Set::empty());
    }

    /// Picks a table, whose rows are still to come.
    pub fn open(&mut self, table: &str)
        ensures
            final(self)@ == old(self)@.opened(table@),
    {
        let page = TablePage {
            columns: Vec::new(),
            rows: Vec::new(),
            rowids: Vec::new(),
            total: 0,
        };
        assert(page@ =~= empty_page());
        self.table = Some((owned(table), Ok(page)));
        self.editing = None;
    }

    /// Puts a cell into its editor. A row without an address is read-only.
    pub fn begin_edit(&mut self, row: usize, column: usize) -> (begun: BeginEdit)
        ensures
            begun == old(self)@.begin(row as int),
            final(self)@ == old(self)@.edited(row, column),
    {
        let seed = match &self.table {
            Some((_, Ok(page))) => {
                let addressed = row < page.rowids.len() && page.rowids[row].is_some();
                if !addressed {
                    return BeginEdit::ReadOnly;
                }
                cell_seed(page, row, column)
            },
            _ => {
                return BeginEdit::NoRows;
            },
        };
        self.editing = Some((row, column, seed));
        BeginEdit::Editing
    }

    /// Text typed into the cell.
    pub fn edit_typed(&mut self, text: &str)
        ensures
            final(self)@ == old(self)@.typed(text@),
    {
        let changed = match &self.editing {
            Some((row, column, buffer)) => Some((*row, *column, join2(buffer.as_str(), text))),
            None => None,
        };
        if changed.is_some() {
            self.editing = changed;
        }
    }

    /// Erases the last character of the cell.
    pub fn edit_backspace(&mut self)
        ensures
            final(self)@ == old(self)@.erased(),
    {
        let changed = match &self.editing {
            Some((row, column, buffer)) => {
                let chars = chars_of(buffer.as_str());
                if chars.len() > 0 {
                    let shorter = text_of(&chars, 0, chars.len() - 1);
                    assert(shorter@ =~= buffer@.drop_last());
                    Some((*row, *column, shorter))
                } else {
                    None
                }
            },
            None => None,
        };
        if changed.is_some() {
            self.editing = changed;
        }
    }

    /// Leaves the cell as it was.
    pub fn edit_cancel(&mut self)
        ensures
            final(self)@ == old(self)@.released(),
    {
        self.editing = None;
    }

    /// Leaves the cell, and says what to write: the row by its address, and
    /// what was typed. An empty cell writes an empty text.
    pub fn edit_commit(&mut self) -> (write: Option<CellWrite>)
        ensures
            final(self)@ == old(self)@.released(),
            write.deep_view() == old(self)@.write(),
    {
        let write = match (&self.editing, &self.table) {
            (Some((row, column, buffer)), Some((table, Ok(page)))) => {
                if *row < page.rowids.len() && *column < page.columns.len() {
                    match page.rowids[*row] {
                        Some(rowid) => Some(
                            CellWrite {
                                table: table.clone(),
                                column: page.columns[*column].clone(),
                                rowid,
                                value: buffer.clone(),
                            },
                        ),
                        None => None,
                    }
                } else {
                    None
                }
            },
            _ => None,
        };
        self.editing = None;
        write
    }

    /// The table that a new row goes into.
    pub fn insert_target(&self) -> (table: Option<String>)
        ensures
            table.deep_view() == self@.insert_into(),
    {
        match &self.table {
            Some((table, Ok(_))) => Some(table.clone()),
            _ => None,
        }
    }

    /// The schema was read, or there is no database to read.
    pub fn schema_read(&mut self, read: Option<Result<Vec<TableInfo>, String>>)
        ensures
            final(self)@ == old(self)@.with_schema(
                match read {
                    Some(found) => Some(schema_view(found)),
                    None => None,
                },
            ),
    {
        self.schema = match read {
            Some(found) => Some(found),
            None => Some(
                Err(
                    owned(
                        "No sqlite database found (.env names another driver, or the file does not exist)",
                    ),
                ),
            ),
        };
        self.collapse_all();
    }

    /// Rows were read, or there is no database to read.
    pub fn page_read(&mut self, read: Option<Result<(String, TablePage), String>>)
        ensures
            final(self)@ == old(self)@.with_page(
                match read {
                    Some(Ok((table, page))) => Some(Ok((table@, page@))),
                    Some(Err(message)) => Some(Err(message@)),
                    None => None,
                },
            ),
    {
        let name = match &self.table {
            Some((open, _)) => open.clone(),
            None => String::new(),
        };
        self.table = match read {
            Some(Ok((table, page))) => Some((table, Ok(page))),
            Some(Err(message)) => Some((name, Err(message))),
            None => Some((name, Err(owned("no sqlite database")))),
        };
    }
}

// ---------------------------------------------------------------------------
// What is shown
// ---------------------------------------------------------------------------

/// A table in the schema list.
pub struct SchemaTable {
    pub label: String,
    /// Whether its rows are the ones that are open.
    pub selected: bool,
    /// Its columns, where they are shown.
    pub columns: Vec<String>,
}

/// The schema list.
pub enum SchemaBody {
    Message(String),
    Tables(Vec<SchemaTable>),
}

/// A table in the schema list, as contracts see it.
pub struct SchemaRow {
    pub label: Seq<char>,
    pub selected: bool,
    pub columns: Seq<Seq<char>>,
}

/// The schema list as contracts see it.
pub enum SchemaRows {
    Message(Seq<char>),
    Tables(Seq<SchemaRow>),
}

impl vstd::view::DeepView for SchemaTable {
    type V = SchemaRow;

    open spec fn deep_view(&self) -> SchemaRow {
        SchemaRow {
            label: self.label@,
            selected: self.selected,
            columns: self.columns.deep_view(),
        }
    }
}

impl View for SchemaBody {
    type V = SchemaRows;

    open spec fn view(&self) -> SchemaRows {
        match *self {
            SchemaBody::Message(message) => SchemaRows::Message(message@),
            SchemaBody::Tables(tables) => SchemaRows::Tables(tables.deep_view()),
        }
    }
}

/// A column's line: its name and type, and words for what it is, so that they
/// can be read in every theme.
pub open spec fn column_line(column: ColumnView) -> Seq<char> {
    let line = "  "@ + column.name + "  "@ + column.column_type;
    let keyed = if column.primary_key {
        line + "  pk"@
    } else {
        line
    };
    if column.nullable {
        keyed + "  ?"@
    } else {
        keyed
    }
}

/// A table's lines in the schema list.
pub open spec fn schema_row(table: TableView, state: DatabaseView) -> SchemaRow {
    let expanded = state.expanded.contains(table.name);
    SchemaRow {
        label: (if expanded {
            "▾ "@
        } else {
            "▸ "@
        }) + table.name,
        selected: state.table matches Some((open, _)) && open == table.name,
        columns: if expanded {
            Seq::new(table.columns.len(), |i: int| column_line(table.columns[i]))
        } else {
            Seq::empty()
        },
    }
}

impl DatabaseView {
    /// The schema list: what is known, and plain words where nothing is.
    pub open spec fn schema_rows(self) -> SchemaRows {
        match self.schema {
            None => SchemaRows::Message("Reading the database schema…"@),
            Some(Err(message)) => SchemaRows::Message(message),
            Some(Ok(tables)) => if tables.len() == 0 {
                SchemaRows::Message("The database has no tables"@)
            } else {
                SchemaRows::Tables(
                    Seq::new(tables.len(), |i: int| schema_row(tables[i], self)),
                )
            },
        }
    }

    /// Whether there is anything to expand or to collapse.
    pub open spec fn has_tables(self) -> bool {
        self.schema matches Some(Ok(tables)) && tables.len() > 0
    }
}

/// A column's line.
fn line_of_column(column: &ColumnInfo) -> (line: String)
    ensures
        line@ == column_line(column.deep_view()),
{
    let named = join2("  ", column.name.as_str());
    let typed = join3(named.as_str(), "  ", column.column_type.as_str());
    let keyed = if column.primary_key {
        join2(typed.as_str(), "  pk")
    } else {
        typed
    };
    if column.nullable {
        join2(keyed.as_str(), "  ?")
    } else {
        keyed
    }
}

impl Database {
    /// A table's lines in the schema list.
    fn table_row(&self, table: &TableInfo) -> (row: SchemaTable)
        ensures
            row.deep_view() == schema_row(table.deep_view(), self@),
    {
        let name = table.name.as_str();
        let expanded = self.is_expanded(name);
        let selected = match &self.table {
            Some((open, _)) => same(open.as_str(), name),
            None => false,
        };
        let mut columns: Vec<String> = Vec::new();
        assert(columns.deep_view() =~= Seq::<Seq<char>>::empty());
        if expanded {
            let ghost lines = schema_row(table.deep_view(), self@).columns;
            assert(lines =~= Seq::new(
                table.columns.len() as nat,
                |i: int| column_line(table.columns.deep_view()[i]),
            ));
            let mut i: usize = 0;
            while i < table.columns.len()
                invariant
                    i <= table.columns.len(),
                    lines == Seq::new(
                        table.columns.len() as nat,
                        |i: int| column_line(table.columns.deep_view()[i]),
                    ),
                    columns.deep_view() == lines.take(i as int),
                decreases table.columns.len() - i,
            {
                let ghost gathered = columns.deep_view();
                columns.push(line_of_column(&table.columns[i]));
                assert(columns.deep_view() =~= gathered.push(lines[i as int]));
                assert(lines.take(i + 1) =~= gathered.push(lines[i as int]));
                i += 1;
            }
            assert(columns.deep_view() =~= lines);
        }
        let label = if expanded {
            join2("▾ ", name)
        } else {
            join2("▸ ", name)
        };
        SchemaTable { label, selected, columns }
    }

    /// The schema list.
    pub fn render_db_panel(&self) -> (body: SchemaBody)
        ensures
            body@ == self@.schema_rows(),
    {
        match &self.schema {
            None => SchemaBody::Message(owned("Reading the database schema…")),
            Some(Err(message)) => SchemaBody::Message(message.clone()),
            Some(Ok(tables)) => {
                if tables.len() == 0 {
                    return SchemaBody::Message(owned("The database has no tables"));
                }
                let ghost all = Seq::new(
                    tables.len() as nat,
                    |i: int| schema_row(tables.deep_view()[i], self@),
                );
                let mut rows: Vec<SchemaTable> = Vec::new();
                let mut i: usize = 0;
                assert(rows.deep_view() =~= all.take(0));
                while i < tables.len()
                    invariant
                        i <= tables.len(),
                        all == Seq::new(
                            tables.len() as nat,
                            |i: int| schema_row(tables.deep_view()[i], self@),
                        ),
                        rows.deep_view() == all.take(i as int),
                    decreases tables.len() - i,
                {
                    let ghost gathered = rows.deep_view();
                    rows.push(self.table_row(&tables[i]));
                    assert(rows.deep_view() =~= gathered.push(all[i as int]));
                    assert(all.take(i + 1) =~= gathered.push(all[i as int]));
                    i += 1;
                }
                assert(rows.deep_view() =~= all);
                SchemaBody::Tables(rows)
            },
        }
    }

    /// Whether the header offers to expand and to collapse: only while there
    /// is something to.
    pub fn has_header_buttons(&self) -> (held: bool)
        ensures
            held == self@.has_tables(),
    {
        match &self.schema {
            Some(Ok(tables)) => tables.len() > 0,
            _ => false,
        }
    }
}

/// A cell of the grid.
pub struct GridCell {
    pub text: String,
    pub color: u32,
    /// Its own background, where it has one.
    pub background: Option<u32>,
    /// The border of the cell in its editor.
    pub border: Option<u32>,
    /// Whether a click puts it into its editor.
    pub clickable: bool,
}

/// The grid of rows.
pub enum Grid {
    /// No table is picked.
    Nothing,
    Message(String),
    Rows {
        header: String,
        columns: Vec<GridCell>,
        rows: Vec<Vec<GridCell>>,
    },
}

/// A cell of the grid, as contracts see it.
pub struct GridCellView {
    pub text: Seq<char>,
    pub color: u32,
    pub background: Option<u32>,
    pub border: Option<u32>,
    pub clickable: bool,
}

/// The grid as contracts see it.
pub enum GridView {
    Nothing,
    Message(Seq<char>),
    Rows { header: Seq<char>, columns: Seq<GridCellView>, rows: Seq<Seq<GridCellView>> },
}

impl vstd::view::DeepView for GridCell {
    type V = GridCellView;

    open spec fn deep_view(&self) -> GridCellView {
        GridCellView {
            text: self.text@,
            color: self.color,
            background: self.background,
            border: self.border,
            clickable: self.clickable,
        }
    }
}

impl View for Grid {
    type V = GridView;

    open spec fn view(&self) -> GridView {
        match *self {
            Grid::Nothing => GridView::Nothing,
            Grid::Message(message) => GridView::Message(message@),
            Grid::Rows { header, columns, rows } => GridView::Rows {
                header: header@,
                columns: columns.deep_view(),
                rows: rows.deep_view(),
            },
        }
    }
}

/// The line above the rows.
pub open spec fn grid_header(name: Seq<char>, total: u64) -> Seq<char> {
    name + "  —  "@ + text::decimal(total as nat) + " row(s)"@ + (if total > DB_PAGE_SIZE {
        ", showing first page"@
    } else {
        Seq::empty()
    })
}

/// A column's cell.
pub open spec fn header_cell(name: Seq<char>, theme: Theme) -> GridCellView {
    GridCellView {
        text: name,
        color: theme.text,
        background: Some(theme.panel),
        border: None,
        clickable: false,
    }
}

/// A value's cell: the one being edited shows what is typed, and every second
/// row is tinted.
pub open spec fn value_cell(
    value: Seq<char>,
    row: int,
    column: int,
    editing: Option<(usize, usize, Seq<char>)>,
    theme: Theme,
) -> GridCellView {
    match editing {
        Some((r, c, buffer)) if r == row && c == column => GridCellView {
            text: buffer,
            color: theme.text,
            background: Some(theme.background),
            border: Some(theme.accent),
            clickable: false,
        },
        _ => GridCellView {
            text: value,
            color: theme.text_muted,
            background: if row % 2 == 1 {
                Some(theme.hover)
            } else {
                None
            },
            border: None,
            clickable: true,
        },
    }
}

/// A row's cells.
pub open spec fn value_row(
    values: Seq<Seq<char>>,
    row: int,
    editing: Option<(usize, usize, Seq<char>)>,
    theme: Theme,
) -> Seq<GridCellView> {
    Seq::new(values.len(), |c: int| value_cell(values[c], row, c, editing, theme))
}

impl DatabaseView {
    /// The grid of the table that is open.
    pub open spec fn grid(self, theme: Theme) -> GridView {
        match self.table {
            None => GridView::Nothing,
            Some((_, Err(message))) => GridView::Message(message),
            Some((name, Ok(page))) => GridView::Rows {
                header: grid_header(name, page.total),
                columns: Seq::new(
                    page.columns.len(),
                    |i: int| header_cell(page.columns[i], theme),
                ),
                rows: Seq::new(
                    page.rows.len(),
                    |r: int| value_row(page.rows[r], r, self.editing, theme),
                ),
            },
        }
    }
}

/// The line above the rows.
fn header_line(name: &str, total: u64) -> (line: String)
    ensures
        line@ == grid_header(name@, total),
{
    let named = join3(name, "  —  ", decimal_text(total).as_str());
    let counted = join2(named.as_str(), " row(s)");
    if total > DB_PAGE_SIZE {
        join2(counted.as_str(), ", showing first page")
    } else {
        assert(counted@ + Seq::<char>::empty() =~= counted@);
        counted
    }
}

impl Database {
    /// A value's cell.
    fn cell(&self, value: &str, row: usize, column: usize, theme: &Theme) -> (cell: GridCell)
        ensures
            cell.deep_view() == value_cell(
                value@,
                row as int,
                column as int,
                self@.editing,
                *theme,
            ),
    {
        if let Some((r, c, buffer)) = &self.editing {
            if *r == row && *c == column {
                return GridCell {
                    text: buffer.clone(),
                    color: theme.text,
                    background: Some(theme.background),
                    border: Some(theme.accent),
                    clickable: false,
                };
            }
        }
        let background = if row % 2 == 1 {
            Some(theme.hover)
        } else {
            None
        };
        GridCell {
            text: owned(value),
            color: theme.text_muted,
            background,
            border: None,
            clickable: true,
        }
    }

    /// A row's cells.
    fn row_cells(&self, values: &Vec<String>, row: usize, theme: &Theme) -> (cells: Vec<GridCell>)
        ensures
            cells.deep_view() == value_row(values.deep_view(), row as int, self@.editing, *theme),
    {
        let ghost all = value_row(values.deep_view(), row as int, self@.editing, *theme);
        let mut cells: Vec<GridCell> = Vec::new();
        let mut i: usize = 0;
        assert(cells.deep_view() =~= all.take(0));
        while i < values.len()
            invariant
                i <= values.len(),
                all == value_row(values.deep_view(), row as int, self@.editing, *theme),
                cells.deep_view() == all.take(i as int),
            decreases values.len() - i,
        {
            let ghost gathered = cells.deep_view();
            cells.push(self.cell(values[i].as_str(), row, i, theme));
            assert(cells.deep_view() =~= gathered.push(all[i as int]));
            assert(all.take(i + 1) =~= gathered.push(all[i as int]));
            i += 1;
        }
        assert(cells.deep_view() =~= all);
        cells
    }

    /// The grid of the table that is open: a header, then the rows.
    pub fn render_db_table_view(&self, theme: &Theme) -> (grid: Grid)
        ensures
            grid@ == self@.grid(*theme),
    {
        match &self.table {
            None => Grid::Nothing,
            Some((_, Err(message))) => Grid::Message(message.clone()),
            Some((name, Ok(page))) => {
                let ghost all_columns = Seq::new(
                    page@.columns.len(),
                    |i: int| header_cell(page@.columns[i], *theme),
                );
                let mut columns: Vec<GridCell> = Vec::new();
                let mut i: usize = 0;
                assert(columns.deep_view() =~= all_columns.take(0));
                while i < page.columns.len()
                    invariant
                        i <= page.columns.len(),
                        all_columns == Seq::new(
                            page@.columns.len(),
                            |i: int| header_cell(page@.columns[i], *theme),
                        ),
                        columns.deep_view() == all_columns.take(i as int),
                    decreases page.columns.len() - i,
                {
                    let ghost gathered = columns.deep_view();
                    columns.push(
                        GridCell {
                            text: page.columns[i].clone(),
                            color: theme.text,
                            background: Some(theme.panel),
                            border: None,
                            clickable: false,
                        },
                    );
                    assert(columns.deep_view() =~= gathered.push(all_columns[i as int]));
                    assert(all_columns.take(i + 1) =~= gathered.push(all_columns[i as int]));
                    i += 1;
                }
                assert(columns.deep_view() =~= all_columns);
                let ghost all_rows = Seq::new(
                    page@.rows.len(),
                    |r: int| value_row(page@.rows[r], r, self@.editing, *theme),
                );
                let mut rows: Vec<Vec<GridCell>> = Vec::new();
                let mut r: usize = 0;
                assert(rows.deep_view() =~= all_rows.take(0));
                while r < page.rows.len()
                    invariant
                        r <= page.rows.len(),
                        all_rows == Seq::new(
                            page@.rows.len(),
                            |r: int| value_row(page@.rows[r], r, self@.editing, *theme),
                        ),
                        rows.deep_view() == all_rows.take(r as int),
                    decreases page.rows.len() - r,
                {
                    let ghost gathered = rows.deep_view();
                    assert(page@.rows[r as int] == page.rows[r as int].deep_view());
                    rows.push(self.row_cells(&page.rows[r], r, theme));
                    assert(rows.deep_view() =~= gathered.push(all_rows[r as int]));
                    assert(all_rows.take(r + 1) =~= gathered.push(all_rows[r as int]));
                    r += 1;
                }
                assert(rows.deep_view() =~= all_rows);
                Grid::Rows { header: header_line(name.as_str(), page.total), columns, rows }
            },
        }
    }
}

/// What a key does while a cell is in its editor.
#[derive(Clone, Copy, PartialEq, Eq, Structural, Debug)]
pub enum CellKey {
    Commit,
    Cancel,
    Backspace,
    /// The key's own text goes into the cell.
    Type,
    Nothing,
}

/// Whether a character is one of Unicode's control characters.
pub open spec fn is_control(c: char) -> bool {
    c <= '\u{1f}' || '\u{7f}' <= c <= '\u{9f}'
}

/// Whether a key's text is text to type: not empty, and not control
/// characters alone.
pub open spec fn is_typed(text: Seq<char>) -> bool {
    exists|i: int| 0 <= i < text.len() && !is_control(#[trigger] text[i])
}

/// What a key does while a cell is in its editor.
pub open spec fn cell_key(key: Seq<char>, text: Option<Seq<char>>) -> CellKey {
    if key == "enter"@ {
        CellKey::Commit
    } else if key == "escape"@ {
        CellKey::Cancel
    } else if key == "backspace"@ {
        CellKey::Backspace
    } else {
        match text {
            Some(typed) => if is_typed(typed) {
                CellKey::Type
            } else {
                CellKey::Nothing
            },
            None => CellKey::Nothing,
        }
    }
}

/// Whether a key's text is text to type.
fn has_text(text: &str) -> (held: bool)
    ensures
        held == is_typed(text@),
{
    let chars = chars_of(text);
    let mut i: usize = 0;
    while i < chars.len()
        invariant
            i <= chars.len(),
            chars@ == text@,
            forall|k: int| 0 <= k < i ==> is_control(#[trigger] text@[k]),
        decreases chars.len() - i,
    {
        let c = chars[i];
        if !(c <= '\u{1f}' || ('\u{7f}' <= c && c <= '\u{9f}')) {
            assert(!is_control(text@[i as int]));
            return true;
        }
        i += 1;
    }
    false
}

/// What a key does while a cell is in its editor.
pub fn key_in_cell(key: &str, text: Option<&str>) -> (action: CellKey)
    ensures
        action == cell_key(
            key@,
            match text {
                Some(typed) => Some(typed@),
                None => None,
            },
        ),
{
    if same(key, "enter") {
        CellKey::Commit
    } else if same(key, "escape") {
        CellKey::Cancel
    } else if same(key, "backspace") {
        CellKey::Backspace
    } else {
        match text {
            Some(typed) => if has_text(typed) {
                CellKey::Type
            } else {
                CellKey::Nothing
            },
            None => CellKey::Nothing,
        }
    }
}

// ---------------------------------------------------------------------------
// What holds
// ---------------------------------------------------------------------------

/// Clicking a table's name twice leaves its columns as they were.
pub proof fn law_toggle_twice(state: DatabaseView, name: Seq<char>)
    ensures
        state.toggled(name).toggled(name) == state,
{
    assert(state.toggled(name).toggled(name).expanded =~= state.expanded);
}

/// Nothing can be written to a row without an address: no click puts such a
/// cell into its editor.
pub proof fn law_edit_needs_an_address(state: DatabaseView, row: usize, column: usize)
    requires
        state.editing is None,
    ensures
        state.edited(row, column).editing is Some ==> state.page() is Some
            && state.page()->0.rowid(row as int) is Some,
        state.edited(row, column).write() is Some ==> state.page()->0.rowid(row as int) == Some(
            state.edited(row, column).write()->0.rowid,
        ),
{
}

/// What is typed and erased again leaves the cell as it was.
pub proof fn law_erase_undoes_typing(state: DatabaseView, c: char)
    ensures
        state.typed(seq![c]).erased() == state,
{
    if let Some((_, _, buffer)) = state.editing {
        assert((buffer + seq![c]).drop_last() =~= buffer);
    }
}

/// Putting one more into a list puts it into the set.
proof fn lemma_push_set<T>(list: Seq<T>, item: T)
    ensures
        list.push(item).to_set() == list.to_set().insert(item),
{
    assert forall|x: T| list.push(item).to_set().contains(x) == list.to_set().insert(
        item,
    ).contains(x) by {
        if list.contains(x) {
            let i = choose|i: int| 0 <= i < list.len() && list[i] == x;
            assert(list.push(item)[i] == x);
        }
        if x == item {
            assert(list.push(item)[list.len() as int] == x);
        }
        if list.push(item).contains(x) {
            let i = choose|i: int| 0 <= i < list.push(item).len() && list.push(item)[i] == x;
            if i < list.len() {
                assert(list[i] == x);
            }
        }
    }
    assert(list.push(item).to_set() =~= list.to_set().insert(item));
}

/// What the editor of a cell starts from.
fn cell_seed(page: &TablePage, row: usize, column: usize) -> (seed: String)
    ensures
        seed@ == page@.seed(row as int, column as int),
{
    if row < page.rows.len() {
        let cells = &page.rows[row];
        assert(page@.rows[row as int] == cells.deep_view());
        if column < cells.len() {
            assert(page@.rows[row as int][column as int] == cells[column as int]@);
            if !same(cells[column].as_str(), "NULL") {
                return cells[column].clone();
            }
        }
    }
    String::new()
}

/// A table's columns are shown or hidden by its name alone: one click turns it
/// over, and every other table stays as it was.
pub proof fn law_click_turns_over_one_table(state: DatabaseView, name: Seq<char>, other: Seq<char>)
    requires
        other != name,
    ensures
        state.toggled(name).expanded.contains(name) == !state.expanded.contains(name),
        state.toggled(name).expanded.contains(other) == state.expanded.contains(other),
        state.toggled(name).table == state.table,
        state.toggled(name).editing == state.editing,
        state.toggled(name).schema == state.schema,
{
}

/// All tables that were read are shown expanded, and none after collapsing.
pub proof fn law_all_tables_turn_over(state: DatabaseView, tables: Seq<TableView>, i: int, name: Seq<char>)
    requires
        state.schema == Some(Ok::<Seq<TableView>, Seq<char>>(tables)),
        0 <= i < tables.len(),
    ensures
        state.all_expanded().expanded.contains(tables[i].name),
        !state.all_collapsed().expanded.contains(name),
        state.all_expanded().schema == state.schema,
        state.all_collapsed().schema == state.schema,
{
    assert(table_names(tables)[i] == tables[i].name);
}

/// A fresh panel has read nothing, and an opened table starts without rows under
/// its own name, with no cell being edited.
pub proof fn law_opened_table_starts_empty(state: DatabaseView, table: Seq<char>)
    ensures
        DatabaseView::fresh().schema is None,
        DatabaseView::fresh().table is None,
        DatabaseView::fresh().editing is None,
        !DatabaseView::fresh().expanded.contains(table),
        state.opened(table).table matches Some((name, Ok(page))) && name == table && page.rows.len()
            == 0 && page.columns.len() == 0 && page.total == 0,
        state.opened(table).editing is None,
        state.opened(table).schema == state.schema,
        state.opened(table).expanded == state.expanded,
{
}

/// What was read of the schema is shown, a project without a database says so,
/// and either way no table is expanded.
pub proof fn law_read_schema_is_kept(
    state: DatabaseView,
    read: Result<Seq<TableView>, Seq<char>>,
    name: Seq<char>,
)
    ensures
        state.with_schema(Some(read)).schema == Some(read),
        !state.with_schema(Some(read)).expanded.contains(name),
        state.with_schema(None).schema == Some(
            Err::<Seq<TableView>, Seq<char>>(
                "No sqlite database found (.env names another driver, or the file does not exist)"@,
            ),
        ),
        state.with_schema(Some(read)).table == state.table,
{
}

/// The rows that were read are shown under the table they belong to; a failure
/// is shown under the table that was asked for.
pub proof fn law_read_rows_are_kept(
    state: DatabaseView,
    asked: Seq<char>,
    table: Seq<char>,
    page: PageView,
    message: Seq<char>,
)
    ensures
        state.with_page(Some(Ok((table, page)))).table == Some(
            (table, Ok::<PageView, Seq<char>>(page)),
        ),
        state.opened(asked).with_page(Some(Err(message))).table == Some(
            (asked, Err::<PageView, Seq<char>>(message)),
        ),
        state.opened(asked).with_page(None).table == Some(
            (asked, Err::<PageView, Seq<char>>("no sqlite database"@)),
        ),
        state.with_page(Some(Ok((table, page)))).editing == state.editing,
{
}

/// Editing a cell starts from what the cell shows, with an empty text for one
/// without a value, and only in a row that has an address.
pub proof fn law_edit_starts_from_the_cell(
    state: DatabaseView,
    name: Seq<char>,
    page: PageView,
    row: usize,
    column: usize,
)
    requires
        state.table == Some((name, Ok::<PageView, Seq<char>>(page))),
        row < page.rows.len(),
        column < page.rows[row as int].len(),
    ensures
        row < page.rowids.len() && page.rowids[row as int] is Some ==> {
            &&& state.begin(row as int) is Editing
            &&& state.edited(row, column).editing matches Some((r, c, text))
            &&& r == row
            &&& c == column
            &&& page.rows[row as int][column as int] != "NULL"@ ==> text
                == page.rows[row as int][column as int]
            &&& page.rows[row as int][column as int] == "NULL"@ ==> text.len() == 0
        },
        row >= page.rowids.len() || page.rowids[row as int] is None ==> state.begin(
            row as int,
        ) is ReadOnly && state.edited(row, column) == state,
{
}

/// Without rows there is no cell to edit.
pub proof fn law_no_rows_no_edit(state: DatabaseView, row: usize, column: usize)
    requires
        !(state.table matches Some((_, Ok(_)))),
    ensures
        state.begin(row as int) is NoRows,
        state.edited(row, column) == state,
        state.write() is None,
        state.insert_into() is None,
{
}

/// Typing adds behind what is there and erasing takes the last character; where
/// no cell is being edited neither does anything.
pub proof fn law_typing_changes_the_edited_cell(
    state: DatabaseView,
    row: usize,
    column: usize,
    text: Seq<char>,
    more: Seq<char>,
)
    ensures
        state.editing == Some((row, column, text)) ==> {
            &&& state.typed(more).editing == Some((row, column, text + more))
            &&& text.len() > 0 ==> state.erased().editing == Some(
                (row, column, text.take(text.len() - 1)),
            )
            &&& text.len() == 0 ==> state.erased().editing == state.editing
        },
        state.editing is None ==> state.typed(more) == state && state.erased() == state,
        state.released().editing is None,
        state.released().table == state.table,
        state.typed(more).table == state.table,
        state.erased().table == state.table,
{
    if state.editing == Some((row, column, text)) && text.len() > 0 {
        assert(text.drop_last() =~= text.take(text.len() - 1));
    }
}

/// What is written is the text of the edited cell, in its own table, column and
/// row.
pub proof fn law_write_is_for_the_edited_cell(
    state: DatabaseView,
    name: Seq<char>,
    page: PageView,
    row: usize,
    column: usize,
    text: Seq<char>,
)
    requires
        state.table == Some((name, Ok::<PageView, Seq<char>>(page))),
        state.editing == Some((row, column, text)),
    ensures
        row < page.rowids.len() && page.rowids[row as int] is Some && column < page.columns.len()
            ==> {
            &&& state.write() matches Some(cell)
            &&& cell.table == name
            &&& cell.column == page.columns[column as int]
            &&& Some(cell.rowid) == page.rowids[row as int]
            &&& cell.value == text
        },
        row >= page.rowids.len() || page.rowids[row as int] is None || column >= page.columns.len()
            ==> state.write() is None,
        state.insert_into() == Some(name),
        state.released().write() is None,
{
}

/// Every table has a row, in order, under its name; an expanded one lists every
/// column with its type, its key and whether it may be null.
pub proof fn law_schema_lists_every_table(
    state: DatabaseView,
    tables: Seq<TableView>,
    message: Seq<char>,
    i: int,
    j: int,
)
    ensures
        state.schema is None ==> state.schema_rows() == SchemaRows::Message(
            "Reading the database schema…"@,
        ) && !state.has_tables(),
        state.schema == Some(Err::<Seq<TableView>, Seq<char>>(message)) ==> state.schema_rows()
            == SchemaRows::Message(message) && !state.has_tables(),
        state.schema == Some(Ok::<Seq<TableView>, Seq<char>>(tables)) ==> {
            &&& tables.len() == 0 ==> state.schema_rows() == SchemaRows::Message(
                "The database has no tables"@,
            )
            &&& state.has_tables() == (tables.len() > 0)
            &&& 0 <= i < tables.len() ==> {
                &&& state.schema_rows() matches SchemaRows::Tables(rows)
                &&& rows.len() == tables.len()
                &&& state.expanded.contains(tables[i].name) ==> {
                    &&& rows[i].label == "▾ "@ + tables[i].name
                    &&& rows[i].columns.len() == tables[i].columns.len()
                    &&& 0 <= j < tables[i].columns.len() ==> {
                        let column = tables[i].columns[j];
                        rows[i].columns[j] == "  "@ + column.name + "  "@ + column.column_type + (
                        if column.primary_key {
                            "  pk"@
                        } else {
                            Seq::empty()
                        }) + (if column.nullable {
                            "  ?"@
                        } else {
                            Seq::empty()
                        })
                    }
                }
                &&& !state.expanded.contains(tables[i].name) ==> rows[i].label == "▸ "@
                    + tables[i].name && rows[i].columns.len() == 0
                &&& rows[i].selected == (state.table is Some && state.table->Some_0.0
                    == tables[i].name)
            }
        },
{
    if state.schema == Some(Ok::<Seq<TableView>, Seq<char>>(tables)) && 0 <= i < tables.len() && 0
        <= j < tables[i].columns.len() {
        let column = tables[i].columns[j];
        let line = "  "@ + column.name + "  "@ + column.column_type;
        assert(line + Seq::<char>::empty() =~= line);
        assert((line + "  pk"@) + Seq::<char>::empty() =~= line + "  pk"@);
    }
}

/// The grid shows every value in its place under the columns' names, the cell
/// that is edited with what was typed so far and the others with what was read;
/// the header counts the rows of the whole table.
pub proof fn law_grid_shows_every_value(
    state: DatabaseView,
    name: Seq<char>,
    page: PageView,
    theme: Theme,
    r: int,
    c: int,
)
    requires
        state.table == Some((name, Ok::<PageView, Seq<char>>(page))),
    ensures
        state.grid(theme) matches GridView::Rows { header, columns, rows } && {
            &&& page.total > DB_PAGE_SIZE ==> header == name + "  —  "@ + text::decimal(
                page.total as nat,
            ) + " row(s)"@ + ", showing first page"@
            &&& page.total <= DB_PAGE_SIZE ==> header == name + "  —  "@ + text::decimal(
                page.total as nat,
            ) + " row(s)"@
            &&& columns.len() == page.columns.len()
            &&& rows.len() == page.rows.len()
            &&& 0 <= c < page.columns.len() ==> columns[c].text == page.columns[c]
                && !columns[c].clickable
            &&& 0 <= r < page.rows.len() ==> rows[r].len() == page.rows[r].len()
            &&& 0 <= r < page.rows.len() && 0 <= c < page.rows[r].len() ==> {
                let here = state.editing matches Some((er, ec, _)) && er == r && ec == c;
                &&& here ==> rows[r][c].text == state.editing->Some_0.2 && rows[r][c].border
                    == Some(theme.accent) && !rows[r][c].clickable
                &&& !here ==> rows[r][c].text == page.rows[r][c] && rows[r][c].clickable
                    && rows[r][c].border is None
                &&& !here && r % 2 == 1 ==> rows[r][c].background == Some(theme.hover)
                &&& !here && r % 2 == 0 ==> rows[r][c].background is None
            }
        },
{
    let line = name + "  —  "@ + text::decimal(page.total as nat) + " row(s)"@;
    assert(line + Seq::<char>::empty() =~= line);
}

/// Return writes, escape leaves, backspace erases, whatever text comes along;
/// any other key types its text where that holds something printable.
pub proof fn law_keys_of_a_cell(key: Seq<char>, text: Option<Seq<char>>)
    ensures
        cell_key("enter"@, text) is Commit,
        cell_key("escape"@, text) is Cancel,
        cell_key("backspace"@, text) is Backspace,
        key != "enter"@ && key != "escape"@ && key != "backspace"@ ==> {
            let printable = text is Some && exists|i: int|
                0 <= i < text->0.len() && !(#[trigger] text->0[i] <= '\u{1f}' || '\u{7f}'
                    <= text->0[i] <= '\u{9f}');
            &&& printable ==> cell_key(key, text) is Type
            &&& !printable ==> cell_key(key, text) is Nothing
        },
{
    reveal_strlit("enter");
    reveal_strlit("escape");
    reveal_strlit("backspace");
    assert("enter"@.len() != "escape"@.len());
    assert("enter"@.len() != "backspace"@.len());
    assert("escape"@.len() != "backspace"@.len());
}

} // verus!
