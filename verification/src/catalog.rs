//! What the wrapper tells the database about its tables: the statements that
//! create them, and the column each is keyed by.

use vstd::prelude::*;
use crate::fdw::{row_field, table_named, ForeignRow, Table};
use crate::scan::PokemonFDW;
use crate::text::str_eq;

verus! {

/// The statement that creates the `party` table in `schema` on `server`.
pub open spec fn party_table_sql(schema: Seq<char>, server: Seq<char>) -> Seq<char> {
    "\nCREATE FOREIGN TABLE "@ + schema
        + ".party (\n  id Integer\n, position Integer\n, hp Integer\n, level Integer\n, max_hp Integer\n, attack Integer\n, defense Integer\n, speed Integer\n, special Integer\n) SERVER "@
        + server + ";\n"@
}

/// The statement that creates the `inventory` table in `schema` on `server`.
pub open spec fn inventory_table_sql(schema: Seq<char>, server: Seq<char>) -> Seq<char> {
    "\nCREATE FOREIGN TABLE "@ + schema
        + ".inventory (\n  id Integer\n, position Integer\n, quantity Integer\n) SERVER "@ + server
        + ";\n"@
}

/// The statement that creates the `story` table in `schema` on `server`.
pub open spec fn story_table_sql(schema: Seq<char>, server: Seq<char>) -> Seq<char> {
    "\nCREATE FOREIGN TABLE "@ + schema + ".story (\n  event text\n, setting integer\n) SERVER "@
        + server + ";\n"@
}

/// The column a table is keyed by.
pub open spec fn key_column(t: Table) -> Seq<char> {
    match t {
        Table::Party => "position"@,
        Table::Inventory => "position"@,
        Table::Story => "event"@,
    }
}

/// The key columns of the table called `name`, if it is one of ours.
pub open spec fn index_columns_spec(name: Seq<char>) -> Option<Seq<Seq<char>>> {
    match table_named(name) {
        Some(t) => Some(seq![key_column(t)]),
        None => None,
    }
}

/// A list of strings taken by their views.
pub open spec fn strings_view(v: Vec<String>) -> Seq<Seq<char>> {
    v@.map_values(|s: String| s@)
}

/// Builds `prefix + a + middle + b + suffix`.
fn join5(prefix: &str, a: &str, middle: &str, b: &str, suffix: &str) -> (s: String)
    ensures
        s@ == prefix@ + a@ + middle@ + b@ + suffix@,
{
    let mut s = String::from_str(prefix);
    s.append(a);
    s.append(middle);
    s.append(b);
    s.append(suffix);
    s
}

impl PokemonFDW {
    /// The statements that create the three tables in `local_schema` on the
    /// server `server_name`, in the order party, inventory, story.
    pub fn schema(server_name: &str, local_schema: &str) -> (res: Option<Vec<String>>)
        ensures
            res matches Some(v) && strings_view(v) == seq![
                party_table_sql(local_schema@, server_name@),
                inventory_table_sql(local_schema@, server_name@),
                story_table_sql(local_schema@, server_name@),
            ],
    {
        let mut v: Vec<String> = Vec::new();
        v.push(
            join5(
                "\nCREATE FOREIGN TABLE ",
                local_schema,
                ".party (\n  id Integer\n, position Integer\n, hp Integer\n, level Integer\n, max_hp Integer\n, attack Integer\n, defense Integer\n, speed Integer\n, special Integer\n) SERVER ",
                server_name,
                ";\n",
            ),
        );
        v.push(
            join5(
                "\nCREATE FOREIGN TABLE ",
                local_schema,
                ".inventory (\n  id Integer\n, position Integer\n, quantity Integer\n) SERVER ",
                server_name,
                ";\n",
            ),
        );
        v.push(
            join5(
                "\nCREATE FOREIGN TABLE ",
                local_schema,
                ".story (\n  event text\n, setting integer\n) SERVER ",
                server_name,
                ";\n",
            ),
        );
        assert(strings_view(v) =~= seq![
            party_table_sql(local_schema@, server_name@),
            inventory_table_sql(local_schema@, server_name@),
            story_table_sql(local_schema@, server_name@),
        ]);
        Some(v)
    }

    /// The key columns of the table called `table_name`; `None` for a table
    /// that is not one of ours, an error whose message
    /// `unknown_index_table_message` gives and which the caller raises.
    pub fn index_columns(table_name: &str) -> (res: Option<Vec<String>>)
        ensures
            match res {
                Some(v) => index_columns_spec(table_name@) == Some(strings_view(v)),
                None => index_columns_spec(table_name@) is None,
            },
    {
        let mut v: Vec<String> = Vec::new();
        if str_eq(table_name, "party") || str_eq(table_name, "inventory") {
            v.push(String::from_str("position"));
        } else if str_eq(table_name, "story") {
            v.push(String::from_str("event"));
        } else {
            return None;
        }
        assert(strings_view(v) =~= index_columns_spec(table_name@)->Some_0);
        Some(v)
    }
}

impl PokemonFDW {
    /// The message that reports a table name without key columns, or `None`
    /// for a name that has them.
    pub fn unknown_index_table_message(table_name: &str) -> (m: Option<String>)
        ensures
            (m is Some) <==> index_columns_spec(table_name@) is None,
            m matches Some(s) ==> s@ == "unknown table "@ + table_name@,
    {
        match Table::from_name(table_name) {
            Some(_) => None,
            None => {
                let mut s = String::from_str("unknown table ");
                s.append(table_name);
                Some(s)
            },
        }
    }
}

/// The rows a scan of `t` hands out.
pub open spec fn row_of_table(r: ForeignRow, t: Table) -> bool {
    match (r, t) {
        (ForeignRow::Pokemon(_), Table::Party) => true,
        (ForeignRow::Inventory(_), Table::Inventory) => true,
        (ForeignRow::Event(_), Table::Story) => true,
        _ => false,
    }
}

/// The tables that have key columns are exactly the tables a scan can be
/// started on by name, and every row of a table has that table's key column.
pub proof fn lemma_key_columns(name: Seq<char>, r: ForeignRow)
    ensures
        index_columns_spec(name) is Some <==> table_named(name) is Some,
        table_named(name) matches Some(t) ==> (row_of_table(r, t) ==> row_field(
            r,
            key_column(t),
        ) is Some),
{
}

/// The columns the statements of `schema` declare for each table.
pub open spec fn declared_columns(t: Table) -> Seq<Seq<char>> {
    match t {
        Table::Party => seq![
            "id"@,
            "position"@,
            "hp"@,
            "level"@,
            "max_hp"@,
            "attack"@,
            "defense"@,
            "speed"@,
            "special"@,
        ],
        Table::Inventory => seq!["id"@, "position"@, "quantity"@],
        Table::Story => seq!["event"@, "setting"@],
    }
}

/// Every row a scan of a table hands out has a value for each column the
/// table is declared with.
pub proof fn lemma_declared_columns_readable(t: Table, r: ForeignRow, i: int)
    requires
        row_of_table(r, t),
        0 <= i < declared_columns(t).len(),
    ensures
        row_field(r, declared_columns(t)[i]) is Some,
{
}

} // verus!
