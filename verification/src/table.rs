use vstd::prelude::*;
use vstd::string::*;
use crate::crud_ops::{records, CacheData};
use crate::record::{
    content_of, distinct_names, has_name, inserted_if_absent, lemma_inserted_if_absent,
    lemma_position_is_unique, lemma_upserted, position, upserted, Record,
};

verus! {

/// What a table is to a contract: whether it has been created, and its
/// records in the order in which their names first came.
pub struct TableState {
    pub exists: bool,
    pub rows: Seq<Record>,
}

impl TableState {
    /// A table that was never created or was dropped holds nothing, and no
    /// two records share a name.
    pub open spec fn wf(self) -> bool {
        &&& distinct_names(self.rows)
        &&& !self.exists ==> self.rows.len() == 0
    }

    /// The table after it was created where it was missing.
    pub open spec fn ensured(self) -> TableState {
        TableState { exists: true, rows: self.rows }
    }

    /// The table after it was dropped.
    pub open spec fn dropped() -> TableState {
        TableState { exists: false, rows: Seq::empty() }
    }
}

/// The cause that this table gives for a statement on a table that does not
/// exist. These are the table's own words; a store of a host gives its own.
pub open spec fn no_table_text() -> Seq<char> {
    "the cache table does not exist"@
}

/// The single table of the cache as a value: whether it has been created,
/// and its records, with a name column that is unique and a content column.
/// A host hands the cache the table as it found it, and takes it back to
/// keep it.
#[derive(Debug)]
pub struct Table {
    exists: bool,
    rows: Vec<CacheData>,
}

impl View for Table {
    type V = TableState;

    closed spec fn view(&self) -> TableState {
        TableState { exists: self.exists, rows: records(self.rows@) }
    }
}

impl Table {
    /// The table's invariant.
    pub open spec fn wf(&self) -> bool {
        self@.wf()
    }

    /// A store in which the table has not been created yet.
    pub fn new() -> (t: Table)
        ensures
            t.wf(),
            t@ == TableState::dropped(),
    {
        let t = Table { exists: false, rows: Vec::new() };
        assert(t@.rows =~= Seq::empty());
        t
    }

    fn missing() -> (cause: String)
        ensures
            cause@ == no_table_text(),
    {
        String::from_str("the cache table does not exist")
    }

    fn find(&self, name: &String) -> (at: Option<usize>)
        requires
            self.wf(),
        ensures
            match at {
                Some(i) => i < self@.rows.len() && self@.rows[i as int].name == name@
                    && has_name(self@.rows, name@) && position(self@.rows, name@) == i,
                None => !has_name(self@.rows, name@),
            },
    {
        let mut i: usize = 0;
        while i < self.rows.len()
            invariant
                self.wf(),
                i <= self.rows.len(),
                forall|j: int| 0 <= j < i ==> (#[trigger] self@.rows[j]).name != name@,
            decreases self.rows.len() - i,
        {
            if self.rows[i].name == *name {
                proof {
                    lemma_position_is_unique(self@.rows, name@, i as int);
                }
                return Some(i);
            }
            i += 1;
        }
        None
    }

    /// Creates the table where it is missing; one that exists keeps its
    /// records. Never fails.
    pub fn ensure_table(&mut self) -> (r: Result<(), String>)
        requires
            old(self).wf(),
        ensures
            final(self).wf(),
            r is Ok,
            final(self)@ == old(self)@.ensured(),
    {
        self.exists = true;
        Ok(())
    }

    /// Drops the table with all its records; no error where it is missing.
    pub fn drop_table(&mut self) -> (r: Result<(), String>)
        requires
            old(self).wf(),
        ensures
            final(self).wf(),
            r is Ok,
            final(self)@ == TableState::dropped(),
    {
        self.exists = false;
        self.rows = Vec::new();
        assert(self@.rows =~= Seq::empty());
        Ok(())
    }

    /// Stores the payload under the name, in place of what the name had.
    /// Fails, and changes nothing, exactly where the table does not exist.
    pub fn upsert(&mut self, name: &str, content: &str) -> (r: Result<(), String>)
        requires
            old(self).wf(),
        ensures
            final(self).wf(),
            old(self)@.exists ==> r is Ok && final(self)@ == (TableState {
                exists: true,
                rows: upserted(old(self)@.rows, name@, content@),
            }),
            !old(self)@.exists ==> r == Err::<(), String>(r->Err_0) && r->Err_0@
                == no_table_text() && final(self)@ == old(self)@,
    {
        if !self.exists {
            return Err(Self::missing());
        }
        let key = name.to_owned();
        let row = CacheData { name: name.to_owned(), content: content.to_owned() };
        proof {
            lemma_upserted(self@.rows, name@, content@);
        }
        match self.find(&key) {
            Some(i) => {
                self.rows.set(i, row);
                assert(self@.rows =~= upserted(old(self)@.rows, name@, content@));
            },
            None => {
                self.rows.push(row);
                assert(self@.rows =~= upserted(old(self)@.rows, name@, content@));
            },
        }
        Ok(())
    }

    /// Stores the payload under the name where the name has no record, and
    /// changes nothing where it has one. Fails exactly where the table does
    /// not exist.
    pub fn insert_if_absent(&mut self, name: &str, content: &str) -> (r: Result<(), String>)
        requires
            old(self).wf(),
        ensures
            final(self).wf(),
            old(self)@.exists ==> r is Ok && final(self)@ == (TableState {
                exists: true,
                rows: inserted_if_absent(old(self)@.rows, name@, content@),
            }),
            !old(self)@.exists ==> r == Err::<(), String>(r->Err_0) && r->Err_0@
                == no_table_text() && final(self)@ == old(self)@,
    {
        if !self.exists {
            return Err(Self::missing());
        }
        let key = name.to_owned();
        proof {
            lemma_inserted_if_absent(self@.rows, name@, content@);
        }
        match self.find(&key) {
            Some(_) => {},
            None => {
                self.rows.push(CacheData { name: key, content: content.to_owned() });
                assert(self@.rows =~= inserted_if_absent(old(self)@.rows, name@, content@));
            },
        }
        Ok(())
    }

    /// The record with the name, or `None` where no record has it. Fails
    /// exactly where the table does not exist.
    pub fn query_one(&self, name: &str) -> (r: Result<Option<CacheData>, String>)
        requires
            self.wf(),
        ensures
            match r {
                Ok(Some(row)) => self@.exists && has_name(self@.rows, name@) && row@ == (Record {
                    name: name@,
                    content: content_of(self@.rows, name@),
                }),
                Ok(None) => self@.exists && !has_name(self@.rows, name@),
                Err(cause) => !self@.exists && cause@ == no_table_text(),
            },
    {
        if !self.exists {
            return Err(Self::missing());
        }
        let key = name.to_owned();
        match self.find(&key) {
            Some(i) => Ok(Some(self.rows[i].clone())),
            None => Ok(None),
        }
    }

    /// Every record, in the order in which the names first came. Fails
    /// exactly where the table does not exist.
    pub fn query_all(&self) -> (r: Result<Vec<CacheData>, String>)
        requires
            self.wf(),
        ensures
            match r {
                Ok(rows) => self@.exists && records(rows@) == self@.rows,
                Err(cause) => !self@.exists && cause@ == no_table_text(),
            },
    {
        if !self.exists {
            return Err(Self::missing());
        }
        let mut out: Vec<CacheData> = Vec::new();
        let mut i: usize = 0;
        while i < self.rows.len()
            invariant
                i <= self.rows.len(),
                out@.len() == i,
                forall|j: int| 0 <= j < i ==> (#[trigger] out@[j])@ == self.rows@[j]@,
            decreases self.rows.len() - i,
        {
            out.push(self.rows[i].clone());
            i += 1;
        }
        assert(records(out@) =~= self@.rows);
        Ok(out)
    }
}

} // verus!
