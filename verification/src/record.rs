use vstd::prelude::*;

verus! {

/// What a record is to a contract: the key it is stored under and its
/// payload, both as text.
pub struct Record {
    pub name: Seq<char>,
    pub content: Seq<char>,
}

/// Some record of `rows` has the name.
pub open spec fn has_name(rows: Seq<Record>, name: Seq<char>) -> bool {
    exists|i: int| 0 <= i < rows.len() && #[trigger] rows[i].name == name
}

/// Where the record with the name stands in `rows`, if one is there.
pub open spec fn position(rows: Seq<Record>, name: Seq<char>) -> int {
    choose|i: int| 0 <= i < rows.len() && #[trigger] rows[i].name == name
}

/// The payload stored under the name, if a record has it.
pub open spec fn content_of(rows: Seq<Record>, name: Seq<char>) -> Seq<char> {
    rows[position(rows, name)].content
}

/// How many records of `rows` have the name.
pub open spec fn count_name(rows: Seq<Record>, name: Seq<char>) -> nat
    decreases rows.len(),
{
    if rows.len() == 0 {
        0
    } else {
        let rest = count_name(rows.drop_last(), name);
        if rows.last().name == name {
            rest + 1
        } else {
            rest
        }
    }
}

/// No two records of `rows` share a name.
pub open spec fn distinct_names(rows: Seq<Record>) -> bool {
    forall|i: int, j: int|
        0 <= i < j < rows.len() ==> (#[trigger] rows[i]).name != (#[trigger] rows[j]).name
}

/// The rows after a write that replaces: the record with the name gets the
/// new payload where it stands, and a new name is added at the end.
pub open spec fn upserted(rows: Seq<Record>, name: Seq<char>, content: Seq<char>) -> Seq<Record> {
    if has_name(rows, name) {
        rows.update(position(rows, name), Record { name, content })
    } else {
        rows.push(Record { name, content })
    }
}

/// The rows after a write that never replaces: a new name is added at the
/// end, and a name that is there keeps its record.
pub open spec fn inserted_if_absent(
    rows: Seq<Record>,
    name: Seq<char>,
    content: Seq<char>,
) -> Seq<Record> {
    if has_name(rows, name) {
        rows
    } else {
        rows.push(Record { name, content })
    }
}

/// With distinct names, a record found under a name is the one that
/// `position` picks.
pub proof fn lemma_position_is_unique(rows: Seq<Record>, name: Seq<char>, i: int)
    requires
        distinct_names(rows),
        0 <= i < rows.len(),
        rows[i].name == name,
    ensures
        has_name(rows, name),
        position(rows, name) == i,
        content_of(rows, name) == rows[i].content,
{
    let p = position(rows, name);
    assert(0 <= p < rows.len() && rows[p].name == name);
    if p < i {
        assert(rows[p].name != rows[i].name);
    } else if i < p {
        assert(rows[i].name != rows[p].name);
    }
}

/// With distinct names, a name occurs once where a record has it and not at
/// all where none has.
pub proof fn lemma_count_of_distinct(rows: Seq<Record>, name: Seq<char>)
    requires
        distinct_names(rows),
    ensures
        count_name(rows, name) == if has_name(rows, name) { 1nat } else { 0nat },
    decreases rows.len(),
{
    if rows.len() > 0 {
        let front = rows.drop_last();
        let last = rows.len() - 1;
        assert forall|i: int, j: int| 0 <= i < j < front.len() implies (#[trigger] front[i]).name
            != (#[trigger] front[j]).name by {
            assert(front[i] == rows[i] && front[j] == rows[j]);
        }
        lemma_count_of_distinct(front, name);
        if rows.last().name == name {
            assert(rows[last].name == name);
            if has_name(front, name) {
                let k = position(front, name);
                assert(front[k] == rows[k]);
                assert(rows[k].name != rows[last].name);
            }
        } else if has_name(rows, name) {
            let k = position(rows, name);
            assert(k != last);
            assert(front[k].name == name);
        } else if has_name(front, name) {
            let k = position(front, name);
            assert(rows[k].name == name);
        }
    }
}

/// A write that replaces keeps the names distinct, and afterwards the name
/// has the new payload; every other name has what it had.
pub proof fn lemma_upserted(rows: Seq<Record>, name: Seq<char>, content: Seq<char>)
    requires
        distinct_names(rows),
    ensures
        distinct_names(upserted(rows, name, content)),
        has_name(upserted(rows, name, content), name),
        content_of(upserted(rows, name, content), name) == content,
        forall|other: Seq<char>|
            other != name ==> has_name(upserted(rows, name, content), other) == has_name(
                rows,
                other,
            ),
        forall|other: Seq<char>|
            other != name && has_name(rows, other) ==> content_of(
                upserted(rows, name, content),
                other,
            ) == content_of(rows, other),
{
    let after = upserted(rows, name, content);
    let at = if has_name(rows, name) {
        position(rows, name)
    } else {
        rows.len() as int
    };
    assert(after.len() > at && after[at].name == name && after[at].content == content);
    assert forall|i: int| 0 <= i < after.len() && i != at implies #[trigger] after[i] == rows[i]
        && rows[i].name != name by {
        if has_name(rows, name) {
            if i < at {
                assert(rows[i].name != rows[at].name);
            } else {
                assert(rows[at].name != rows[i].name);
            }
        }
    }
    assert forall|i: int, j: int| 0 <= i < j < after.len() implies (#[trigger] after[i]).name
        != (#[trigger] after[j]).name by {
        if i != at && j != at {
            assert(rows[i].name != rows[j].name);
        }
    }
    lemma_position_is_unique(after, name, at);
    assert forall|other: Seq<char>| other != name implies has_name(after, other) == has_name(
        rows,
        other,
    ) by {
        if has_name(rows, other) {
            let k = position(rows, other);
            assert(after[k].name == other);
        }
        if has_name(after, other) {
            let k = position(after, other);
            assert(rows[k].name == other);
        }
    }
    assert forall|other: Seq<char>| other != name && has_name(rows, other) implies content_of(
        after,
        other,
    ) == content_of(rows, other) by {
        let k = position(rows, other);
        assert(after[k] == rows[k]);
        lemma_position_is_unique(after, other, k);
    }
}

/// A write that never replaces keeps the names distinct, and afterwards the
/// name has a record: the one it had, or else the new one.
pub proof fn lemma_inserted_if_absent(rows: Seq<Record>, name: Seq<char>, content: Seq<char>)
    requires
        distinct_names(rows),
    ensures
        distinct_names(inserted_if_absent(rows, name, content)),
        has_name(inserted_if_absent(rows, name, content), name),
        content_of(inserted_if_absent(rows, name, content), name) == if has_name(rows, name) {
            content_of(rows, name)
        } else {
            content
        },
{
    if !has_name(rows, name) {
        lemma_upserted(rows, name, content);
    }
}

/// A payload that was saved under a key is the payload found under it,
/// whatever the table held before.
pub proof fn lemma_saved_is_found(rows: Seq<Record>, key: Seq<char>, content: Seq<char>)
    requires
        distinct_names(rows),
    ensures
        has_name(upserted(rows, key, content), key),
        content_of(upserted(rows, key, content), key) == content,
{
    lemma_upserted(rows, key, content);
}

/// The last writer wins: after two saves under one key the key has the
/// second payload, exactly one record has the key, and the table is what the
/// second save alone would have left.
pub proof fn lemma_last_save_wins(
    rows: Seq<Record>,
    key: Seq<char>,
    first: Seq<char>,
    second: Seq<char>,
)
    requires
        distinct_names(rows),
    ensures
        content_of(upserted(upserted(rows, key, first), key, second), key) == second,
        count_name(upserted(upserted(rows, key, first), key, second), key) == 1,
        upserted(upserted(rows, key, first), key, second) == upserted(rows, key, second),
{
    let once = upserted(rows, key, first);
    let twice = upserted(once, key, second);
    lemma_upserted(rows, key, first);
    lemma_upserted(once, key, second);
    lemma_count_of_distinct(twice, key);
    if has_name(rows, key) {
        let at = position(rows, key);
        assert(once[at].name == key);
        lemma_position_is_unique(once, key, at);
    } else {
        let at = rows.len() as int;
        assert(once[at].name == key);
        lemma_position_is_unique(once, key, at);
    }
    assert(twice =~= upserted(rows, key, second));
}

/// A second insert-if-absent under one key changes nothing; where the key
/// had no record before the first, the key keeps the first payload.
pub proof fn lemma_second_insert_is_ignored(
    rows: Seq<Record>,
    key: Seq<char>,
    first: Seq<char>,
    second: Seq<char>,
)
    requires
        distinct_names(rows),
    ensures
        inserted_if_absent(inserted_if_absent(rows, key, first), key, second)
            == inserted_if_absent(rows, key, first),
        !has_name(rows, key) ==> content_of(
            inserted_if_absent(inserted_if_absent(rows, key, first), key, second),
            key,
        ) == first,
{
    lemma_inserted_if_absent(rows, key, first);
}

/// An insert-if-absent under a key that has a record leaves the record as
/// it is, whatever a save stored there.
pub proof fn lemma_insert_after_save_is_ignored(
    rows: Seq<Record>,
    key: Seq<char>,
    saved: Seq<char>,
    later: Seq<char>,
)
    requires
        distinct_names(rows),
    ensures
        inserted_if_absent(upserted(rows, key, saved), key, later) == upserted(rows, key, saved),
        content_of(inserted_if_absent(upserted(rows, key, saved), key, later), key) == saved,
{
    lemma_upserted(rows, key, saved);
}

/// An empty table has a record under no key, and a save into it leaves
/// exactly the saved record.
pub proof fn lemma_empty_table(key: Seq<char>, content: Seq<char>)
    ensures
        !has_name(Seq::<Record>::empty(), key),
        distinct_names(Seq::<Record>::empty()),
        upserted(Seq::<Record>::empty(), key, content) == seq![Record { name: key, content }],
        inserted_if_absent(Seq::<Record>::empty(), key, content) == seq![
            Record { name: key, content },
        ],
{
    assert(upserted(Seq::<Record>::empty(), key, content) =~= seq![Record { name: key, content }]);
    assert(inserted_if_absent(Seq::<Record>::empty(), key, content) =~= seq![
        Record { name: key, content },
    ]);
}

/// One write to the table: a save, which replaces, or an insert-if-absent,
/// which never does.
pub enum Write {
    Save { key: Seq<char>, content: Seq<char> },
    SaveIfAbsent { key: Seq<char>, content: Seq<char> },
}

/// The rows after one write.
pub open spec fn written(rows: Seq<Record>, write: Write) -> Seq<Record> {
    match write {
        Write::Save { key, content } => upserted(rows, key, content),
        Write::SaveIfAbsent { key, content } => inserted_if_absent(rows, key, content),
    }
}

/// The rows after the writes, made in their order.
pub open spec fn replayed(rows: Seq<Record>, writes: Seq<Write>) -> Seq<Record>
    decreases writes.len(),
{
    if writes.len() == 0 {
        rows
    } else {
        written(replayed(rows, writes.drop_last()), writes.last())
    }
}

/// After any writes, in any order, no key has more than one record.
pub proof fn lemma_writes_keep_keys_unique(rows: Seq<Record>, writes: Seq<Write>)
    requires
        distinct_names(rows),
    ensures
        distinct_names(replayed(rows, writes)),
        forall|key: Seq<char>| count_name(replayed(rows, writes), key) <= 1,
    decreases writes.len(),
{
    if writes.len() > 0 {
        lemma_writes_keep_keys_unique(rows, writes.drop_last());
        let before = replayed(rows, writes.drop_last());
        match writes.last() {
            Write::Save { key, content } => lemma_upserted(before, key, content),
            Write::SaveIfAbsent { key, content } => lemma_inserted_if_absent(
                before,
                key,
                content,
            ),
        }
    }
    assert forall|key: Seq<char>| count_name(replayed(rows, writes), key) <= 1 by {
        lemma_count_of_distinct(replayed(rows, writes), key);
    }
}

} // verus!
