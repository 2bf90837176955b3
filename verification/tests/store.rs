use object_cache::app_db::{clear_db, get, init_db, save, save_if_not_exist, DbCache};
use object_cache::app_error::AppError;
use object_cache::cache_error::{CacheError, ErrorKind, MapError};
use object_cache::crud_ops::{
    column_widths, create_table, drop_table, finish_select, finish_select_all, finish_write,
    insert_into_db, insert_into_db_if_not_exist, print_all_cache, select_all_from_cache,
    select_from_db, CacheData,
};
use object_cache::layout::{
    append_fill, append_padded, cells_line, decimal_text, digit_text, rule_line,
};
use object_cache::map_data::{finish_decode, finish_encode, json_to_obj, obj_to_json};
use object_cache::statement::Statement;
use object_cache::storage::Storage;
use object_cache::table::Table;
use serde::ser::SerializeStruct;
use serde::{Deserialize, Deserializer, Serialize, Serializer};

#[derive(Debug, Clone, PartialEq)]
struct TestStruct {
    name: String,
    email: String,
    ph_no: u64,
}

impl Serialize for TestStruct {
    fn serialize<S: Serializer>(&self, serializer: S) -> Result<S::Ok, S::Error> {
        let mut out = serializer.serialize_struct("TestStruct", 3)?;
        out.serialize_field("name", &self.name)?;
        out.serialize_field("email", &self.email)?;
        out.serialize_field("ph_no", &self.ph_no)?;
        out.end()
    }
}

impl<'de> Deserialize<'de> for TestStruct {
    fn deserialize<D: Deserializer<'de>>(deserializer: D) -> Result<Self, D::Error> {
        let value = serde_json::Value::deserialize(deserializer)?;
        let name = value
            .get("name")
            .and_then(|v| v.as_str())
            .ok_or_else(|| <D::Error as serde::de::Error>::missing_field("name"))?;
        let email = value
            .get("email")
            .and_then(|v| v.as_str())
            .ok_or_else(|| <D::Error as serde::de::Error>::missing_field("email"))?;
        let ph_no = value
            .get("ph_no")
            .and_then(|v| v.as_u64())
            .ok_or_else(|| <D::Error as serde::de::Error>::missing_field("ph_no"))?;
        Ok(TestStruct { name: name.to_owned(), email: email.to_owned(), ph_no })
    }
}

impl DbCache for TestStruct {
    fn get_cache_name() -> String {
        "TestStruct".to_owned()
    }
}

#[derive(Debug)]
struct Unwritable;

impl Serialize for Unwritable {
    fn serialize<S: Serializer>(&self, _serializer: S) -> Result<S::Ok, S::Error> {
        Err(<S::Error as serde::ser::Error>::custom("refused"))
    }
}

impl<'de> Deserialize<'de> for Unwritable {
    fn deserialize<D: Deserializer<'de>>(deserializer: D) -> Result<Self, D::Error> {
        serde_json::Value::deserialize(deserializer)?;
        Ok(Unwritable)
    }
}

impl DbCache for Unwritable {
    fn get_cache_name() -> String {
        "Unwritable".to_owned()
    }
}

fn row(name: &str, content: &str) -> CacheData {
    CacheData { name: name.to_owned(), content: content.to_owned() }
}

fn ready_table() -> Table {
    let mut table = Table::new();
    create_table(&mut table).unwrap();
    table
}

#[test]
fn mod_insert_and_retrieve_from_cache() {
    let mut cache = init_db("test_cache", Table::new());
    let data = TestStruct {
        name: "dinesh".to_owned(),
        email: "dinesh".to_owned(),
        ph_no: 9999999999u64,
    };

    save(&mut cache, &data).unwrap();

    let read: TestStruct = get(&cache).unwrap();
    println!("\n\ndeserialized data 'TestStruct' from cache ->\n\n{:?}\n", read);
    assert_eq!(read, data);
    assert_eq!(
        cache.get_content("TestStruct").unwrap(),
        "{\"name\":\"dinesh\",\"email\":\"dinesh\",\"ph_no\":9999999999}"
    );
}

#[test]
fn type_keyed_read_of_a_broken_payload_is_a_decode_error() {
    let mut cache = init_db("test_cache", Table::new());
    cache.save_content("TestStruct", "[\"dinesh\",\"dinesh\",9999999999]").unwrap();
    let e: AppError = get::<TestStruct>(&cache).unwrap_err();
    assert_eq!(e.kind(), ErrorKind::Decode);
    assert_eq!(
        e.message(),
        "Could not deserialize to Type: TestStruct \n for the key: TestStruct \n for the json: [\"dinesh\",\"dinesh\",9999999999]\n      missing field `name`"
    );
}

#[test]
fn init_db_keeps_the_records_that_the_file_held() {
    let mut first = init_db("test_cache", Table::new());
    assert!(first.get_all_objs().unwrap().is_empty());
    let data = TestStruct { name: "a".to_owned(), email: "a@x".to_owned(), ph_no: 1 };
    save(&mut first, &data).unwrap();

    let second = init_db("test_cache", first.into_table());
    assert_eq!(second.get_all_objs().unwrap().len(), 1);
    assert_eq!(get::<TestStruct>(&second).unwrap(), data);
    let third = init_db("test_cache", second.into_table());
    assert_eq!(get::<TestStruct>(&third).unwrap(), data);
}

#[test]
fn type_keyed_encode_failure_names_the_type() {
    let mut cache = init_db("test_cache", Table::new());
    let e = save(&mut cache, &Unwritable).unwrap_err();
    assert_eq!(e.kind(), ErrorKind::Encode);
    assert_eq!(
        e.message(),
        "Could not serialize obj of Type: Unwritable \n for the obj: Unwritable\n      refused"
    );
    assert!(cache.get_all_objs().unwrap().is_empty());
    let e = save_if_not_exist(&mut cache, &Unwritable).unwrap_err();
    assert_eq!(e.kind(), ErrorKind::Encode);
    assert!(cache.get_all_objs().unwrap().is_empty());
}

#[test]
fn type_keyed_writes_follow_both_policies() {
    let mut cache = init_db("test_cache", Table::new());
    assert_eq!(cache.storage().url(), "sqlite://test_cache.db");
    assert_eq!(get::<TestStruct>(&cache).unwrap_err().kind(), ErrorKind::NotFound);

    let first = TestStruct { name: "a".to_owned(), email: "a@x".to_owned(), ph_no: 1 };
    let second = TestStruct { name: "b".to_owned(), email: "b@x".to_owned(), ph_no: 2 };
    save_if_not_exist(&mut cache, &first).unwrap();
    save_if_not_exist(&mut cache, &second).unwrap();
    assert_eq!(
        cache.get_content("TestStruct").unwrap(),
        "{\"name\":\"a\",\"email\":\"a@x\",\"ph_no\":1}"
    );
    save(&mut cache, &second).unwrap();
    assert_eq!(
        cache.get_content("TestStruct").unwrap(),
        "{\"name\":\"b\",\"email\":\"b@x\",\"ph_no\":2}"
    );
    assert_eq!(cache.get_all_objs().unwrap().len(), 1);

    clear_db(&mut cache);
    let e = get::<TestStruct>(&cache).unwrap_err();
    assert_eq!(e.kind(), ErrorKind::NotFound);
    assert_eq!(
        e.to_text(),
        "** Bang at\n     Could not retrieve cache for name TestStruct\n      no rows returned by a query that expected to return at least one row"
    );
}

#[test]
fn test_db_create_table() {
    let mut table = Table::new();

    create_table(&mut table).unwrap();
    insert_into_db(&mut table, "Dinesh_Cache", r#"dummy content: {"test":"data"}"#).unwrap();

    let cache_list = select_all_from_cache(&table).unwrap();
    assert_eq!(cache_list, vec![row("Dinesh_Cache", r#"dummy content: {"test":"data"}"#)]);
    let lines = print_all_cache(&cache_list);
    assert_eq!(column_widths(&cache_list), (12, 30));
    assert_eq!(
        lines,
        vec![
            format!("{:<30} | {:<30}", "Name", "Content"),
            "-------------+-12----------------------------".to_owned(),
            "Dinesh_Cache | dummy content: {\"test\":\"data\"}".to_owned(),
            "\nEnd----------------------\u{1F9D0}\n".to_owned(),
        ]
    );
    assert_eq!(lines[0].len(), 63);
    assert_eq!(lines[1], format!("{:-<1$}-+-{:-<2$}", "", 12, 30));
}

#[test]
fn create_table_is_idempotent_and_keeps_records() {
    let mut table = ready_table();
    insert_into_db(&mut table, "k", "v").unwrap();
    create_table(&mut table).unwrap();
    create_table(&mut table).unwrap();
    assert_eq!(select_all_from_cache(&table).unwrap(), vec![row("k", "v")]);
}

#[test]
fn drop_table_erases_and_is_idempotent() {
    let mut table = ready_table();
    insert_into_db(&mut table, "k", "v").unwrap();
    drop_table(&mut table).unwrap();
    drop_table(&mut table).unwrap();
    create_table(&mut table).unwrap();
    assert!(select_all_from_cache(&table).unwrap().is_empty());
}

#[test]
fn statements_fail_without_a_table() {
    let mut table = Table::new();
    let e = insert_into_db(&mut table, "k", "v").unwrap_err();
    assert_eq!(e.kind(), ErrorKind::Backend);
    assert_eq!(e.message(), "Could not insert into DB!\n      the cache table does not exist");
    let e = insert_into_db_if_not_exist(&mut table, "k", "v").unwrap_err();
    assert_eq!(e.kind(), ErrorKind::Backend);
    assert_eq!(e.message(), "Could not insert into DB!\n      the cache table does not exist");
    let e = select_from_db(&table, "k").unwrap_err();
    assert_eq!(e.kind(), ErrorKind::Backend);
    assert_eq!(
        e.message(),
        "Could not retrieve cache for name k\n      the cache table does not exist"
    );
    let e = select_all_from_cache(&table).unwrap_err();
    assert_eq!(e.kind(), ErrorKind::Backend);
    assert_eq!(
        e.message(),
        "Could not retrieve data from Database\n      the cache table does not exist"
    );

    let mut table = ready_table();
    insert_into_db(&mut table, "k", "v").unwrap();
    drop_table(&mut table).unwrap();
    assert_eq!(select_from_db(&table, "k").unwrap_err().kind(), ErrorKind::Backend);
}

#[test]
fn select_tells_missing_from_found() {
    let mut table = ready_table();
    let e = select_from_db(&table, "missing").unwrap_err();
    assert_eq!(e.kind(), ErrorKind::NotFound);
    insert_into_db_if_not_exist(&mut table, "k", "v1").unwrap();
    insert_into_db_if_not_exist(&mut table, "k", "v2").unwrap();
    assert_eq!(select_from_db(&table, "k").unwrap(), row("k", "v1"));
    insert_into_db(&mut table, "k", "v3").unwrap();
    assert_eq!(select_from_db(&table, "k").unwrap(), row("k", "v3"));
    assert_eq!(select_from_db(&table, "K").unwrap_err().kind(), ErrorKind::NotFound);
}

#[test]
fn table_methods_report_the_missing_table() {
    let mut table = Table::new();
    assert_eq!(table.upsert("k", "v").unwrap_err(), "the cache table does not exist");
    assert_eq!(table.insert_if_absent("k", "v").unwrap_err(), "the cache table does not exist");
    assert_eq!(table.query_one("k").unwrap_err(), "the cache table does not exist");
    assert_eq!(table.query_all().unwrap_err(), "the cache table does not exist");
    table.ensure_table().unwrap();
    assert_eq!(table.query_one("k").unwrap(), None);
    table.upsert("k", "v").unwrap();
    assert_eq!(table.query_one("k").unwrap(), Some(row("k", "v")));
    table.drop_table().unwrap();
    assert_eq!(table.query_all().unwrap_err(), "the cache table does not exist");
}

#[test]
fn outcomes_of_the_store_are_mapped() {
    assert!(finish_write(Ok(()), "m").is_ok());
    let e = finish_write(Err("disk full".to_owned()), "Could not create table").unwrap_err();
    assert_eq!(e.kind(), ErrorKind::Backend);
    assert_eq!(e.message(), "Could not create table\n      disk full");

    assert_eq!(finish_select("k", Ok(Some(row("k", "v")))).unwrap(), row("k", "v"));
    let e = finish_select("k", Ok(None)).unwrap_err();
    assert_eq!(e.kind(), ErrorKind::NotFound);
    let e = finish_select("k", Err("locked".to_owned())).unwrap_err();
    assert_eq!(e.kind(), ErrorKind::Backend);
    assert_eq!(e.message(), "Could not retrieve cache for name k\n      locked");

    assert_eq!(finish_select_all(Ok(vec![row("a", "b")])).unwrap(), vec![row("a", "b")]);
    let e = finish_select_all(Err("locked".to_owned())).unwrap_err();
    assert_eq!(e.kind(), ErrorKind::Backend);
    assert_eq!(e.message(), "Could not retrieve data from Database\n      locked");
}

#[test]
fn listing_of_no_records_has_the_heading_widths() {
    let list: Vec<CacheData> = Vec::new();
    assert_eq!(column_widths(&list), (4, 7));
    assert_eq!(
        print_all_cache(&list),
        vec!["Name    | Content", "-----+-4------", "\nEnd----------------------\u{1F9D0}\n"]
    );
}

#[test]
fn listing_pads_each_column_to_its_widest_cell() {
    let list = vec![row("k", "v"), row("longer", "x"), row("", "payload!")];
    assert_eq!(column_widths(&list), (6, 8));
    assert_eq!(
        print_all_cache(&list),
        vec![
            "Name     | Content ",
            "-------+-6-------",
            "k      | v       ",
            "longer | x       ",
            "       | payload!",
            "\nEnd----------------------\u{1F9D0}\n",
        ]
    );
    let narrow = vec![row("k", "v")];
    assert_eq!(
        print_all_cache(&narrow),
        vec!["Name | Content", "--+-1", "k | v", "\nEnd----------------------\u{1F9D0}\n"]
    );
}

#[test]
fn listing_measures_bytes_and_pads_characters() {
    let list = vec![row("\u{e9}", "\u{1F9D0}"), row("ab", "c")];
    let (name_width, content_width) = column_widths(&list);
    assert_eq!((name_width, content_width), (2, 4));
    let lines = print_all_cache(&list);
    assert_eq!(lines[2], "\u{e9}  | \u{1F9D0}   ");
    assert_eq!(lines[3], "ab | c   ");
    for (line, r) in lines[2..4].iter().zip(list.iter()) {
        assert_eq!(
            *line,
            format!("{:<nw$} | {:<cw$}", r.name, r.content, nw = name_width, cw = content_width)
        );
    }
    assert_eq!(lines[0], format!("{:<w$} | {:<w$}", "Name", "Content", w = 4));
    assert_eq!(lines[1], format!("{:-<1$}-+-{:-<2$}", "", name_width, content_width));
}

#[test]
fn layout_helpers_fill_and_pad() {
    let mut line = "ab".to_owned();
    append_fill(&mut line, "-", 3);
    assert_eq!(line, "ab---");
    append_fill(&mut line, "-", 0);
    assert_eq!(line, "ab---");
    append_padded(&mut line, "xyz", 5, " ");
    assert_eq!(line, "ab---xyz  ");
    append_padded(&mut line, "xyz", 2, " ");
    assert_eq!(line, "ab---xyz  xyz");
    assert_eq!(cells_line("a", 3, "b", 0), "a   | b");
    assert_eq!(rule_line(0, 2), "-+-0-");
    assert_eq!(rule_line(3, 0), "----+-3");
    assert_eq!(rule_line(12, 4), "-------------+-12--");
    assert_eq!(decimal_text(0), "0");
    assert_eq!(decimal_text(9), "9");
    assert_eq!(decimal_text(10), "10");
    assert_eq!(decimal_text(1234567890), "1234567890");
    assert_eq!(decimal_text(usize::MAX), usize::MAX.to_string());
    for d in 0..10usize {
        assert_eq!(digit_text(d), d.to_string());
    }
}

#[test]
fn statements_bind_and_never_interpolate() {
    let s = Statement::upsert("k'); DROP TABLE cache; --", "v");
    assert_eq!(
        s.sql,
        "INSERT INTO cache(name, content) values (?1, ?2) on conflict(name) do update set content=excluded.content"
    );
    assert_eq!(s.params, vec!["k'); DROP TABLE cache; --", "v"]);
    let s = Statement::insert_if_absent("k", "v");
    assert_eq!(s.sql, "INSERT OR IGNORE INTO \"cache\"(name, content) values (?1, ?2)");
    assert_eq!(s.params, vec!["k", "v"]);
    let s = Statement::select("k");
    assert_eq!(s.sql, "SELECT name, content FROM \"cache\" where name = ?1");
    assert_eq!(s.params, vec!["k"]);
    let s = Statement::select_all();
    assert_eq!(s.sql, "SELECT name, content FROM \"cache\"");
    assert!(s.params.is_empty());
    let s = Statement::create_table();
    assert_eq!(s.sql, "CREATE TABLE IF NOT EXISTS cache (name text PRIMARY KEY,content text);");
    assert!(s.params.is_empty());
    let s = Statement::drop_table();
    assert_eq!(s.sql, "DROP TABLE IF EXISTS \"cache\"");
    assert!(s.params.is_empty());
}

#[test]
fn storage_names_its_place() {
    assert!(matches!(Storage::pick(true, "c"), Storage::Memory));
    assert_eq!(Storage::pick(false, "c").url(), "sqlite://c.db");
    assert_eq!(Storage::in_file("dir/c").url(), "sqlite://dir/c.db");
    assert_eq!(Storage::named(&None).url(), "sqlite::memory:");
    assert_eq!(Storage::named(&Some("c".to_owned())).url(), "sqlite://c.db");
    assert_eq!(
        Storage::in_file("").open_failure().unwrap(),
        "Couldn't create or open file: .db"
    );
    let e = Storage::in_file("c").open_error("disk full");
    assert_eq!(e.kind(), ErrorKind::Backend);
    assert_eq!(e.message(), "Couldn't create or open file: c.db\n      disk full");
    let e = Storage::Memory.open_error("disk full");
    assert_eq!(e.message(), "disk full");
}

#[test]
fn json_codec_writes_and_reads() {
    let data = TestStruct { name: "n".to_owned(), email: "e".to_owned(), ph_no: 7 };
    let json = obj_to_json(&data, "TestStruct").unwrap();
    assert_eq!(json, "{\"name\":\"n\",\"email\":\"e\",\"ph_no\":7}");
    assert_eq!(obj_to_json("plain", "str").unwrap(), "\"plain\"");
    let back: (String, String, u64) = json_to_obj("key", "[\"n\",\"e\",7]", "(String, String, u64)").unwrap();
    assert_eq!(back, ("n".to_owned(), "e".to_owned(), 7));
    assert_eq!(json_to_obj::<TestStruct>("key", &json, "TestStruct").unwrap(), data);
    let e = json_to_obj::<u64>("key", "true", "u64").unwrap_err();
    assert_eq!(e.kind(), ErrorKind::Decode);
    assert_eq!(
        e.message(),
        "Could not deserialize to Type: u64 \n for the key: key \n for the json: true\n      invalid type: boolean `true`, expected u64 at line 1 column 4"
    );
    let e = json_to_obj::<u32>("k", "abc", "u32").unwrap_err();
    assert_eq!(e.kind(), ErrorKind::Decode);
    assert_eq!(
        e.message(),
        "Could not deserialize to Type: u32 \n for the key: k \n for the json: abc\n      expected value at line 1 column 1"
    );
}

#[test]
fn codec_outcomes_are_mapped() {
    assert_eq!(finish_encode("Thing", "shown", Ok("1".to_owned())).unwrap(), "1");
    let e = finish_encode("Thing", "Thing(1)", Err("refused".to_owned())).unwrap_err();
    assert_eq!(e.kind(), ErrorKind::Encode);
    assert_eq!(
        e.message(),
        "Could not serialize obj of Type: Thing \n for the obj: Thing(1)\n      refused"
    );
    assert_eq!(finish_decode("u8", "k", "1", Ok(1u8)).unwrap(), 1);
    let e = finish_decode::<u8>("u8", "k", "x", Err("bad".to_owned())).unwrap_err();
    assert_eq!(e.kind(), ErrorKind::Decode);
    assert_eq!(
        e.message(),
        "Could not deserialize to Type: u8 \n for the key: k \n for the json: x\n      bad"
    );
}

#[test]
fn errors_carry_kind_message_and_cause() {
    let e = CacheError::new("plain");
    assert_eq!(e.kind(), ErrorKind::Backend);
    assert_eq!(e.message(), "plain");
    assert_eq!(e.to_text(), "** Bang at\n     plain");
    let e = CacheError::of_kind(ErrorKind::NotFound, "gone");
    assert_eq!(e.kind(), ErrorKind::NotFound);
    let e = CacheError::caused(ErrorKind::Decode, "m", "c");
    assert_eq!(e.kind(), ErrorKind::Decode);
    assert_eq!(e.message(), "m\n      c");

    let ok: Result<u8, String> = Ok(3);
    assert_eq!(ok.map_to_cache_error("unused").unwrap(), 3);
    let failed: Result<u8, std::num::ParseIntError> = "x".parse::<u8>();
    let e = failed.map_to_cache_error("Could not read").unwrap_err();
    assert_eq!(e.kind(), ErrorKind::Backend);
    assert_eq!(e.message(), "Could not read\n      invalid digit found in string");

    let e = AppError::new("plain");
    assert_eq!(e.kind(), ErrorKind::Backend);
    assert_eq!(e.message(), "plain");
    assert_eq!(e.to_text(), "** Bang at\n     plain");
    let e = AppError::from_cache_error(CacheError::of_kind(ErrorKind::Encode, "m"));
    assert_eq!(e.kind(), ErrorKind::Encode);
    assert_eq!(e.message(), "m");
    let failed: Result<u8, String> = Err("cause".to_owned());
    let e = object_cache::app_error::MapError::map_to_app_error(failed, "msg").unwrap_err();
    assert_eq!(e.message(), "msg\n      cause");
}
