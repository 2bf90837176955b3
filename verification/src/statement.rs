use vstd::prelude::*;
use vstd::string::*;

verus! {

/// A statement for the store: its text, and the values that the store binds
/// to the numbered places of the text. No name or payload ever becomes part
/// of the text.
#[derive(Debug)]
pub struct Statement {
    pub sql: String,
    pub params: Vec<String>,
}

/// What a statement is to a contract.
pub struct StatementText {
    pub sql: Seq<char>,
    pub params: Seq<Seq<char>>,
}

impl View for Statement {
    type V = StatementText;

    open spec fn view(&self) -> StatementText {
        StatementText {
            sql: self.sql@,
            params: Seq::new(self.params@.len(), |i: int| self.params@[i]@),
        }
    }
}

pub open spec fn create_table_sql() -> Seq<char> {
    "CREATE TABLE IF NOT EXISTS cache (name text PRIMARY KEY,content text);"@
}

pub open spec fn drop_table_sql() -> Seq<char> {
    "DROP TABLE IF EXISTS \"cache\""@
}

pub open spec fn upsert_sql() -> Seq<char> {
    "INSERT INTO cache(name, content) values (?1, ?2) on conflict(name) do update set content=excluded.content"@
}

pub open spec fn insert_if_absent_sql() -> Seq<char> {
    "INSERT OR IGNORE INTO \"cache\"(name, content) values (?1, ?2)"@
}

pub open spec fn select_sql() -> Seq<char> {
    "SELECT name, content FROM \"cache\" where name = ?1"@
}

pub open spec fn select_all_sql() -> Seq<char> {
    "SELECT name, content FROM \"cache\""@
}

impl Statement {
    fn plain(sql: &str) -> (s: Statement)
        ensures
            s@ == (StatementText { sql: sql@, params: Seq::empty() }),
    {
        let s = Statement { sql: String::from_str(sql), params: Vec::new() };
        assert(s@.params =~= Seq::empty());
        s
    }

    fn of_record(sql: &str, name: &str, content: &str) -> (s: Statement)
        ensures
            s@ == (StatementText { sql: sql@, params: seq![name@, content@] }),
    {
        let mut params: Vec<String> = Vec::new();
        params.push(String::from_str(name));
        params.push(String::from_str(content));
        let s = Statement { sql: String::from_str(sql), params };
        assert(s@.params =~= seq![name@, content@]);
        s
    }

    /// Creates the table where it is missing.
    pub fn create_table() -> (s: Statement)
        ensures
            s@ == (StatementText { sql: create_table_sql(), params: Seq::empty() }),
    {
        Self::plain("CREATE TABLE IF NOT EXISTS cache (name text PRIMARY KEY,content text);")
    }

    /// Drops the table where it is there.
    pub fn drop_table() -> (s: Statement)
        ensures
            s@ == (StatementText { sql: drop_table_sql(), params: Seq::empty() }),
    {
        Self::plain("DROP TABLE IF EXISTS \"cache\"")
    }

    /// Stores the payload under the name, in place of what the name had.
    pub fn upsert(name: &str, content: &str) -> (s: Statement)
        ensures
            s@ == (StatementText { sql: upsert_sql(), params: seq![name@, content@] }),
    {
        Self::of_record(
            "INSERT INTO cache(name, content) values (?1, ?2) on conflict(name) do update set content=excluded.content",
            name,
            content,
        )
    }

    /// Stores the payload under the name where the name has no record.
    pub fn insert_if_absent(name: &str, content: &str) -> (s: Statement)
        ensures
            s@ == (StatementText { sql: insert_if_absent_sql(), params: seq![name@, content@] }),
    {
        Self::of_record(
            "INSERT OR IGNORE INTO \"cache\"(name, content) values (?1, ?2)",
            name,
            content,
        )
    }

    /// Reads the record with the name.
    pub fn select(name: &str) -> (s: Statement)
        ensures
            s@ == (StatementText { sql: select_sql(), params: seq![name@] }),
    {
        let mut params: Vec<String> = Vec::new();
        params.push(String::from_str(name));
        let s = Statement {
            sql: String::from_str("SELECT name, content FROM \"cache\" where name = ?1"),
            params,
        };
        assert(s@.params =~= seq![name@]);
        s
    }

    /// Reads every record.
    pub fn select_all() -> (s: Statement)
        ensures
            s@ == (StatementText { sql: select_all_sql(), params: Seq::empty() }),
    {
        Self::plain("SELECT name, content FROM \"cache\"")
    }
}

} // verus!
