//! The database schema, as the three migrations create it: users, the keys
//! that belong to them, and registration links that may refer to a key.
use vstd::prelude::*;

verus! {

/// The type of a column.
#[derive(Clone, Copy, Debug, PartialEq, Eq, Structural)]
pub enum ColumnType {
    Uuid,
    Text,
    Timestamp,
    Json,
    Integer,
}

/// A column of a table.
#[derive(Clone, Debug)]
pub struct Column {
    pub name: String,
    pub column_type: ColumnType,
    pub not_null: bool,
    pub primary_key: bool,
    pub auto_increment: bool,
}

/// What a foreign key does when the row it refers to is deleted.
#[derive(Clone, Copy, Debug, PartialEq, Eq, Structural)]
pub enum OnDelete {
    /// Nothing: the deletion is refused while the reference remains.
    NoAction,
}

/// A foreign key: `from_column` of `from_table` refers to `to_column` of
/// `to_table`.
#[derive(Clone, Debug)]
pub struct ForeignKey {
    pub name: String,
    pub from_table: String,
    pub from_column: String,
    pub to_table: String,
    pub to_column: String,
    pub on_delete: OnDelete,
}

/// A table that a migration creates (only where it does not exist yet, when
/// `if_not_exists` holds), and drops when it is undone.
#[derive(Clone, Debug)]
pub struct Table {
    pub name: String,
    pub if_not_exists: bool,
    pub columns: Vec<Column>,
    pub foreign_keys: Vec<ForeignKey>,
}

/// A migration: its name and the table it creates.
#[derive(Clone, Debug)]
pub struct Migration {
    pub name: String,
    pub table: Table,
}

/// `c` is the column `name` of type `ty` with the given flags.
pub open spec fn column_is(
    c: Column,
    name: Seq<char>,
    ty: ColumnType,
    not_null: bool,
    primary_key: bool,
    auto_increment: bool,
) -> bool {
    &&& c.name@ == name
    &&& c.column_type == ty
    &&& c.not_null == not_null
    &&& c.primary_key == primary_key
    &&& c.auto_increment == auto_increment
}

/// `f` is the foreign key `name` from `from_table.from_column` to
/// `to_table.to_column`, taking no action on deletion.
pub open spec fn foreign_key_is(
    f: ForeignKey,
    name: Seq<char>,
    from_table: Seq<char>,
    from_column: Seq<char>,
    to_table: Seq<char>,
    to_column: Seq<char>,
) -> bool {
    &&& f.name@ == name
    &&& f.from_table@ == from_table
    &&& f.from_column@ == from_column
    &&& f.to_table@ == to_table
    &&& f.to_column@ == to_column
    &&& f.on_delete == OnDelete::NoAction
}

/// The `user` table, created only where it does not exist: a UUID primary
/// key `id`, then `email`, `role`, `created_at` and `last_authenticated`, all
/// required.
pub open spec fn is_user_table(t: Table) -> bool {
    &&& t.name@ == "user"@
    &&& t.if_not_exists
    &&& t.columns@.len() == 5
    &&& column_is(t.columns@[0], "id"@, ColumnType::Uuid, true, true, false)
    &&& column_is(t.columns@[1], "email"@, ColumnType::Text, true, false, false)
    &&& column_is(t.columns@[2], "role"@, ColumnType::Text, true, false, false)
    &&& column_is(t.columns@[3], "created_at"@, ColumnType::Timestamp, true, false, false)
    &&& column_is(t.columns@[4], "last_authenticated"@, ColumnType::Timestamp, true, false, false)
    &&& t.foreign_keys@.len() == 0
}

/// The `key` table, created only where it does not exist: a UUID primary key `id`, the owner's `user_id` (a
/// foreign key to `user.id`), `name`, `color`, `created_at`, `last_used` and
/// the JSON `credential`, all required.
pub open spec fn is_key_table(t: Table) -> bool {
    &&& t.name@ == "key"@
    &&& t.if_not_exists
    &&& t.columns@.len() == 7
    &&& column_is(t.columns@[0], "id"@, ColumnType::Uuid, true, true, false)
    &&& column_is(t.columns@[1], "user_id"@, ColumnType::Uuid, true, false, false)
    &&& column_is(t.columns@[2], "name"@, ColumnType::Text, true, false, false)
    &&& column_is(t.columns@[3], "color"@, ColumnType::Text, true, false, false)
    &&& column_is(t.columns@[4], "created_at"@, ColumnType::Timestamp, true, false, false)
    &&& column_is(t.columns@[5], "last_used"@, ColumnType::Timestamp, true, false, false)
    &&& column_is(t.columns@[6], "credential"@, ColumnType::Json, true, false, false)
    &&& t.foreign_keys@.len() == 1
    &&& foreign_key_is(t.foreign_keys@[0], "FK-key-user"@, "key"@, "user_id"@, "user"@, "id"@)
}

/// The `registration_link` table, created only where it does not exist: an
/// auto-incremented integer primary key `id`, the required `human_id`, and an
/// optional `key_id` (a foreign key to `key.id`).
pub open spec fn is_registration_link_table(t: Table) -> bool {
    &&& t.name@ == "registration_link"@
    &&& t.if_not_exists
    &&& t.columns@.len() == 3
    &&& column_is(t.columns@[0], "id"@, ColumnType::Integer, true, true, true)
    &&& column_is(t.columns@[1], "human_id"@, ColumnType::Text, true, false, false)
    &&& column_is(t.columns@[2], "key_id"@, ColumnType::Uuid, false, false, false)
    &&& t.foreign_keys@.len() == 1
    &&& foreign_key_is(
        t.foreign_keys@[0],
        "FK-registration_link-key"@,
        "registration_link"@,
        "key_id"@,
        "key"@,
        "id"@,
    )
}

/// The migrations, in the order they run.
pub open spec fn is_migration_sequence(ms: Seq<Migration>) -> bool {
    &&& ms.len() == 3
    &&& ms[0].name@ == "m20220803_000818_create_user"@
    &&& is_user_table(ms[0].table)
    &&& ms[1].name@ == "m20220803_000830_create_key"@
    &&& is_key_table(ms[1].table)
    &&& ms[2].name@ == "m20220803_000835_create_registration"@
    &&& is_registration_link_table(ms[2].table)
}

fn column(name: &str, column_type: ColumnType, not_null: bool, primary_key: bool, auto_increment: bool) -> (c: Column)
    ensures
        column_is(c, name@, column_type, not_null, primary_key, auto_increment),
{
    Column { name: name.to_owned(), column_type, not_null, primary_key, auto_increment }
}

fn foreign_key(name: &str, from_table: &str, from_column: &str, to_table: &str, to_column: &str) -> (f: ForeignKey)
    ensures
        foreign_key_is(f, name@, from_table@, from_column@, to_table@, to_column@),
{
    ForeignKey {
        name: name.to_owned(),
        from_table: from_table.to_owned(),
        from_column: from_column.to_owned(),
        to_table: to_table.to_owned(),
        to_column: to_column.to_owned(),
        on_delete: OnDelete::NoAction,
    }
}

/// The `user` table.
pub fn user_table() -> (t: Table)
    ensures
        is_user_table(t),
{
    let mut columns: Vec<Column> = Vec::new();
    columns.push(column("id", ColumnType::Uuid, true, true, false));
    columns.push(column("email", ColumnType::Text, true, false, false));
    columns.push(column("role", ColumnType::Text, true, false, false));
    columns.push(column("created_at", ColumnType::Timestamp, true, false, false));
    columns.push(column("last_authenticated", ColumnType::Timestamp, true, false, false));
    Table { name: "user".to_owned(), if_not_exists: true, columns, foreign_keys: Vec::new() }
}

/// The `key` table.
pub fn key_table() -> (t: Table)
    ensures
        is_key_table(t),
{
    let mut columns: Vec<Column> = Vec::new();
    columns.push(column("id", ColumnType::Uuid, true, true, false));
    columns.push(column("user_id", ColumnType::Uuid, true, false, false));
    columns.push(column("name", ColumnType::Text, true, false, false));
    columns.push(column("color", ColumnType::Text, true, false, false));
    columns.push(column("created_at", ColumnType::Timestamp, true, false, false));
    columns.push(column("last_used", ColumnType::Timestamp, true, false, false));
    columns.push(column("credential", ColumnType::Json, true, false, false));
    let mut foreign_keys: Vec<ForeignKey> = Vec::new();
    foreign_keys.push(foreign_key("FK-key-user", "key", "user_id", "user", "id"));
    Table { name: "key".to_owned(), if_not_exists: true, columns, foreign_keys }
}

/// The `registration_link` table.
pub fn registration_link_table() -> (t: Table)
    ensures
        is_registration_link_table(t),
{
    let mut columns: Vec<Column> = Vec::new();
    columns.push(column("id", ColumnType::Integer, true, true, true));
    columns.push(column("human_id", ColumnType::Text, true, false, false));
    columns.push(column("key_id", ColumnType::Uuid, false, false, false));
    let mut foreign_keys: Vec<ForeignKey> = Vec::new();
    foreign_keys.push(
        foreign_key("FK-registration_link-key", "registration_link", "key_id", "key", "id"),
    );
    Table { name: "registration_link".to_owned(), if_not_exists: true, columns, foreign_keys }
}

/// The migrations, in the order they run.
pub fn migrations() -> (ms: Vec<Migration>)
    ensures
        is_migration_sequence(ms@),
{
    let mut ms: Vec<Migration> = Vec::new();
    ms.push(Migration { name: "m20220803_000818_create_user".to_owned(), table: user_table() });
    ms.push(Migration { name: "m20220803_000830_create_key".to_owned(), table: key_table() });
    ms.push(
        Migration {
            name: "m20220803_000835_create_registration".to_owned(),
            table: registration_link_table(),
        },
    );
    ms
}

/// Whether table `t` has a column named `name` that is its primary key.
pub open spec fn has_primary_key_column(t: Table, name: Seq<char>) -> bool {
    exists|c: int| 0 <= c < t.columns@.len() && #[trigger] t.columns@[c].name@ == name && t.columns@[c].primary_key
}

/// Whether table `t` has a column named `name`.
pub open spec fn has_column(t: Table, name: Seq<char>) -> bool {
    exists|c: int| 0 <= c < t.columns@.len() && #[trigger] t.columns@[c].name@ == name
}

/// Every foreign key of a migration's table starts at a column of that table
/// and refers to the primary key of a table that an earlier migration
/// created: running the migrations in order never refers ahead, and undoing
/// them in reverse order drops every referring table before the table it
/// refers to.
pub proof fn law_foreign_keys_refer_to_earlier_tables(ms: Seq<Migration>)
    requires
        is_migration_sequence(ms),
    ensures
        forall|i: int, k: int|
            0 <= i < ms.len() && 0 <= k < ms[i].table.foreign_keys@.len() ==> {
                let f = #[trigger] ms[i].table.foreign_keys@[k];
                &&& f.from_table@ == ms[i].table.name@
                &&& has_column(ms[i].table, f.from_column@)
                &&& exists|j: int|
                    0 <= j < i && (#[trigger] ms[j].table.name@) == f.to_table@
                        && has_primary_key_column(ms[j].table, f.to_column@)
            },
{
    assert forall|i: int, k: int|
        0 <= i < ms.len() && 0 <= k < ms[i].table.foreign_keys@.len() implies {
        let f = #[trigger] ms[i].table.foreign_keys@[k];
        &&& f.from_table@ == ms[i].table.name@
        &&& has_column(ms[i].table, f.from_column@)
        &&& exists|j: int|
            0 <= j < i && (#[trigger] ms[j].table.name@) == f.to_table@
                && has_primary_key_column(ms[j].table, f.to_column@)
    } by {
        let f = ms[i].table.foreign_keys@[k];
        if i == 1 {
            assert(ms[1].table.columns@[1].name@ == f.from_column@);
            assert(ms[0].table.columns@[0].name@ == f.to_column@);
            assert(has_primary_key_column(ms[0].table, f.to_column@));
            assert(ms[0].table.name@ == f.to_table@);
        } else if i == 2 {
            assert(ms[2].table.columns@[2].name@ == f.from_column@);
            assert(ms[1].table.columns@[0].name@ == f.to_column@);
            assert(has_primary_key_column(ms[1].table, f.to_column@));
            assert(ms[1].table.name@ == f.to_table@);
        }
    }
}

/// The migrations create three different tables, so undoing one drops only
/// the table it created.
pub proof fn law_migrations_create_distinct_tables(ms: Seq<Migration>)
    requires
        is_migration_sequence(ms),
    ensures
        forall|i: int, j: int|
            0 <= i < j < ms.len() ==> (#[trigger] ms[i].table.name@) != (#[trigger] ms[j].table.name@),
{
    reveal_strlit("user");
    reveal_strlit("key");
    reveal_strlit("registration_link");
    assert(ms[0].table.name@[0] != ms[1].table.name@[0]);
    assert(ms[0].table.name@.len() != ms[2].table.name@.len());
    assert(ms[1].table.name@.len() != ms[2].table.name@.len());
}

/// The tables of a database, by name, after a migration's statement creates
/// `t`: unchanged where a table of that name exists and the statement says
/// `IF NOT EXISTS`; an error (none) where it exists and the statement does
/// not; else the tables with `t` added.
pub open spec fn tables_after_up(tables: Set<Seq<char>>, t: Table) -> Option<Set<Seq<char>>> {
    if tables.contains(t.name@) {
        if t.if_not_exists {
            Some(tables)
        } else {
            None
        }
    } else {
        Some(tables.insert(t.name@))
    }
}

/// The tables of a database, by name, after a migration's statement drops `t`.
pub open spec fn tables_after_down(tables: Set<Seq<char>>, t: Table) -> Set<Seq<char>> {
    tables.remove(t.name@)
}

/// Running a migration succeeds whatever tables exist, and running it twice
/// leaves the same tables as running it once: each statement creates its
/// table only where it does not exist.
pub proof fn law_migrations_are_idempotent(ms: Seq<Migration>, i: int, tables: Set<Seq<char>>)
    requires
        is_migration_sequence(ms),
        0 <= i < ms.len(),
    ensures
        tables_after_up(tables, ms[i].table) is Some,
        tables_after_up(tables_after_up(tables, ms[i].table).unwrap(), ms[i].table)
            == tables_after_up(tables, ms[i].table),
{
    let once = tables_after_up(tables, ms[i].table).unwrap();
    assert(once.contains(ms[i].table.name@));
}

/// Undoing a migration right after running it, on a database that did not
/// have its table, gives back the tables there were before.
pub proof fn law_down_undoes_up(ms: Seq<Migration>, i: int, tables: Set<Seq<char>>)
    requires
        is_migration_sequence(ms),
        0 <= i < ms.len(),
        !tables.contains(ms[i].table.name@),
    ensures
        tables_after_down(tables_after_up(tables, ms[i].table).unwrap(), ms[i].table) == tables,
{
    assert(tables_after_down(tables_after_up(tables, ms[i].table).unwrap(), ms[i].table) =~= tables);
}

/// The column names of a table, in order.
pub open spec fn column_names(t: Table) -> Seq<Seq<char>> {
    t.columns@.map_values(|c: Column| c.name@)
}

/// Each table has the columns the entities read and write, by name and in
/// order: `user` has `id`, `email`, `role`, `created_at`,
/// `last_authenticated`; `key` has `id`, `user_id`, `name`, `color`,
/// `created_at`, `last_used`, `credential`; `registration_link` has `id`,
/// `human_id`, `key_id`.
pub proof fn law_tables_have_the_entity_columns(ms: Seq<Migration>)
    requires
        is_migration_sequence(ms),
    ensures
        ms[0].table.name@ == "user"@,
        column_names(ms[0].table) == seq![
            "id"@,
            "email"@,
            "role"@,
            "created_at"@,
            "last_authenticated"@,
        ],
        ms[1].table.name@ == "key"@,
        column_names(ms[1].table) == seq![
            "id"@,
            "user_id"@,
            "name"@,
            "color"@,
            "created_at"@,
            "last_used"@,
            "credential"@,
        ],
        ms[2].table.name@ == "registration_link"@,
        column_names(ms[2].table) == seq!["id"@, "human_id"@, "key_id"@],
{
    assert(column_names(ms[0].table) =~= seq![
        "id"@,
        "email"@,
        "role"@,
        "created_at"@,
        "last_authenticated"@,
    ]);
    assert(column_names(ms[1].table) =~= seq![
        "id"@,
        "user_id"@,
        "name"@,
        "color"@,
        "created_at"@,
        "last_used"@,
        "credential"@,
    ]);
    assert(column_names(ms[2].table) =~= seq!["id"@, "human_id"@, "key_id"@]);
}

/// Every table has exactly one primary key column, and it is its first column.
pub proof fn law_each_table_has_one_primary_key(ms: Seq<Migration>)
    requires
        is_migration_sequence(ms),
    ensures
        forall|i: int| 0 <= i < ms.len() ==> (#[trigger] ms[i].table).columns@[0].primary_key,
        forall|i: int, c: int|
            0 <= i < ms.len() && 0 < c < ms[i].table.columns@.len() ==> !(
            #[trigger] ms[i].table.columns@[c]).primary_key,
{
}

} // verus!
