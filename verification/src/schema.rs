//! The database schema: the tables that the first migration creates, and the
//! one that undoing it drops.
use vstd::prelude::*;

verus! {

/// The type of a column.
#[derive(Debug, Clone, Copy, PartialEq, Eq, Structural)]
pub enum ColumnKind {
    Integer,
    Text,
    DateTime,
    Boolean,
}

/// A column of a table; every column the bot creates is `NOT NULL`.
#[derive(Debug, Clone, PartialEq, Eq)]
pub struct ColumnDef {
    pub name: String,
    pub kind: ColumnKind,
    pub not_null: bool,
    pub primary_key: bool,
    pub auto_increment: bool,
    pub unique: bool,
    /// Whether the column defaults to `false`.
    pub default_false: bool,
}

/// A table to create.
#[derive(Debug, Clone, PartialEq, Eq)]
pub struct TableDef {
    pub name: String,
    pub columns: Vec<ColumnDef>,
    /// Whether the table is created only if it does not exist yet, leaving an
    /// existing table with its columns and rows as it is.
    pub if_not_exists: bool,
}

/// A table to drop.
#[derive(Debug, Clone, PartialEq, Eq)]
pub struct DropDef {
    pub name: String,
    /// Whether the drop is skipped when the table does not exist.
    pub if_exists: bool,
}

/// The plain view of a column.
pub struct ColumnView {
    pub name: Seq<char>,
    pub kind: ColumnKind,
    pub not_null: bool,
    pub primary_key: bool,
    pub auto_increment: bool,
    pub unique: bool,
    pub default_false: bool,
}

/// The plain view of a table.
pub struct TableView {
    pub name: Seq<char>,
    pub columns: Seq<ColumnView>,
    pub if_not_exists: bool,
}

impl View for ColumnDef {
    type V = ColumnView;

    open spec fn view(&self) -> ColumnView {
        ColumnView {
            name: self.name@,
            kind: self.kind,
            not_null: self.not_null,
            primary_key: self.primary_key,
            auto_increment: self.auto_increment,
            unique: self.unique,
            default_false: self.default_false,
        }
    }
}

impl View for TableDef {
    type V = TableView;

    open spec fn view(&self) -> TableView {
        TableView { name: self.name@, columns: self.columns@.map_values(|c: ColumnDef| c@), if_not_exists: self.if_not_exists }
    }
}

/// A `NOT NULL` column with the given traits.
pub open spec fn column(name: Seq<char>, kind: ColumnKind, primary_key: bool, auto_increment: bool, unique: bool, default_false: bool) -> ColumnView {
    ColumnView { name, kind, not_null: true, primary_key, auto_increment, unique, default_false }
}

/// The tables of the first migration, in the order it creates them, each only if
/// it does not exist yet: courses
/// (numbered, with a unique name and two dates), users (keyed by Discord id,
/// with a unique name and a NetID), the forum channel, and posts.
pub open spec fn schema() -> Seq<TableView> {
    seq![
        TableView {
            name: "courses"@,
            columns: seq![
                column("id"@, ColumnKind::Integer, true, true, false, false),
                column("name"@, ColumnKind::Text, false, false, true, false),
                column("start"@, ColumnKind::DateTime, false, false, false, false),
                column("end"@, ColumnKind::DateTime, false, false, false, false),
            ],
            if_not_exists: true,
        },
        TableView {
            name: "users"@,
            columns: seq![
                column("id"@, ColumnKind::Text, true, false, false, false),
                column("name"@, ColumnKind::Text, false, false, true, false),
                column("net_id"@, ColumnKind::Text, false, false, false, false),
            ],
            if_not_exists: true,
        },
        TableView {
            name: "forum_channels"@,
            columns: seq![column("id"@, ColumnKind::Text, true, false, false, false)],
            if_not_exists: true,
        },
        TableView {
            name: "posts"@,
            columns: seq![
                column("id"@, ColumnKind::Integer, true, true, false, false),
                column("post_id"@, ColumnKind::Text, false, false, false, false),
                column("user_id"@, ColumnKind::Text, false, false, false, false),
                column("date"@, ColumnKind::Text, false, false, false, false),
                column("kind"@, ColumnKind::Text, false, false, false, false),
                column("deleted"@, ColumnKind::Boolean, false, false, false, true),
            ],
            if_not_exists: true,
        },
    ]
}

fn make_column(
    name: &str,
    kind: ColumnKind,
    primary_key: bool,
    auto_increment: bool,
    unique: bool,
    default_false: bool,
) -> (c: ColumnDef)
    ensures
        c@ == column(name@, kind, primary_key, auto_increment, unique, default_false),
{
    ColumnDef { name: String::from_str(name), kind, not_null: true, primary_key, auto_increment, unique, default_false }
}

/// The tables that the first migration creates.
pub fn migration_up() -> (tables: Vec<TableDef>)
    ensures
        tables@.map_values(|t: TableDef| t@) == schema(),
{
    let mut courses: Vec<ColumnDef> = Vec::new();
    courses.push(make_column("id", ColumnKind::Integer, true, true, false, false));
    courses.push(make_column("name", ColumnKind::Text, false, false, true, false));
    courses.push(make_column("start", ColumnKind::DateTime, false, false, false, false));
    courses.push(make_column("end", ColumnKind::DateTime, false, false, false, false));
    let mut users: Vec<ColumnDef> = Vec::new();
    users.push(make_column("id", ColumnKind::Text, true, false, false, false));
    users.push(make_column("name", ColumnKind::Text, false, false, true, false));
    users.push(make_column("net_id", ColumnKind::Text, false, false, false, false));
    let mut forums: Vec<ColumnDef> = Vec::new();
    forums.push(make_column("id", ColumnKind::Text, true, false, false, false));
    let mut posts: Vec<ColumnDef> = Vec::new();
    posts.push(make_column("id", ColumnKind::Integer, true, true, false, false));
    posts.push(make_column("post_id", ColumnKind::Text, false, false, false, false));
    posts.push(make_column("user_id", ColumnKind::Text, false, false, false, false));
    posts.push(make_column("date", ColumnKind::Text, false, false, false, false));
    posts.push(make_column("kind", ColumnKind::Text, false, false, false, false));
    posts.push(make_column("deleted", ColumnKind::Boolean, false, false, false, true));
    assert(courses@.map_values(|c: ColumnDef| c@) =~= schema()[0].columns);
    assert(users@.map_values(|c: ColumnDef| c@) =~= schema()[1].columns);
    assert(forums@.map_values(|c: ColumnDef| c@) =~= schema()[2].columns);
    assert(posts@.map_values(|c: ColumnDef| c@) =~= schema()[3].columns);
    let mut tables: Vec<TableDef> = Vec::new();
    tables.push(TableDef { name: String::from_str("courses"), columns: courses, if_not_exists: true });
    tables.push(TableDef { name: String::from_str("users"), columns: users, if_not_exists: true });
    tables.push(TableDef { name: String::from_str("forum_channels"), columns: forums, if_not_exists: true });
    tables.push(TableDef { name: String::from_str("posts"), columns: posts, if_not_exists: true });
    assert(tables@.map_values(|t: TableDef| t@) =~= schema());
    tables
}

/// The tables that undoing the first migration drops: only the users table, and
/// not only if it exists (dropping a missing table fails).
pub fn migration_down() -> (tables: Vec<DropDef>)
    ensures
        tables@.len() == 1,
        tables@[0].name@ == "users"@,
        !tables@[0].if_exists,
{
    let mut tables: Vec<DropDef> = Vec::new();
    tables.push(DropDef { name: String::from_str("users"), if_exists: false });
    tables
}

/// Whether a table has exactly one primary-key column.
pub open spec fn has_one_primary_key(t: TableView) -> bool {
    exists|i: int|
        0 <= i < t.columns.len() && #[trigger] t.columns[i].primary_key && forall|j: int|
            0 <= j < t.columns.len() && j != i ==> !(#[trigger] t.columns[j].primary_key)
}

/// Law: every table of the schema is created only if it does not exist yet, has
/// exactly one primary-key column, and every column is `NOT NULL`.
pub proof fn law_schema_keys()
    ensures
        forall|k: int| 0 <= k < schema().len() ==> (#[trigger] schema()[k]).if_not_exists,
        forall|k: int| 0 <= k < schema().len() ==> has_one_primary_key(#[trigger] schema()[k]),
        forall|k: int, i: int|
            0 <= k < schema().len() && 0 <= i < schema()[k].columns.len() ==> (#[trigger] schema()[k].columns[i]).not_null,
{
    let s = schema();
    assert(s[0].columns[0].primary_key);
    assert(s[1].columns[0].primary_key);
    assert(s[2].columns[0].primary_key);
    assert(s[3].columns[0].primary_key);
}

/// Law: course names and user names are unique keys: the `name` column of the
/// courses table and of the users table is unique, and the `id` column leads
/// each table as its primary key.
pub proof fn law_schema_unique_names()
    ensures
        schema()[0].name == "courses"@ && schema()[0].columns[1].name == "name"@ && schema()[0].columns[1].unique,
        schema()[1].name == "users"@ && schema()[1].columns[1].name == "name"@ && schema()[1].columns[1].unique,
        forall|k: int| 0 <= k < schema().len() ==> (#[trigger] schema()[k]).columns[0].name == "id"@ && schema()[k].columns[0].primary_key,
        schema()[3].name == "posts"@ && schema()[3].columns[5].name == "deleted"@ && schema()[3].columns[5].kind
            == ColumnKind::Boolean && schema()[3].columns[5].default_false,
        schema()[0].columns[0].auto_increment && schema()[3].columns[0].auto_increment,
        !schema()[1].columns[0].auto_increment && !schema()[2].columns[0].auto_increment,
{
    let s = schema();
    assert(s[0].columns[0].name == "id"@);
    assert(s[1].columns[0].name == "id"@);
    assert(s[2].columns[0].name == "id"@);
    assert(s[3].columns[0].name == "id"@);
}

} // verus!
