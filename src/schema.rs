use crate::join::{join, join_strings, views};
use crate::value::Value;
use vstd::prelude::*;

verus! {

/// A table column: its name, the tag of its declared value type, and whether
/// it may hold NULL. Two columns are the same column when their names are.
#[derive(Clone, Debug)]
pub struct Column {
    pub name: String,
    pub type_tag: String,
    pub nullable: bool,
}

impl Column {
    pub fn new(name: String, type_tag: String, nullable: bool) -> (r: Column)
        ensures
            r == (Column { name, type_tag, nullable }),
    {
        Column { name, type_tag, nullable }
    }

    /// A copy of the column.
    pub fn duplicate(&self) -> (r: Column)
        ensures
            r == *self,
    {
        Column { name: self.name.clone(), type_tag: self.type_tag.clone(), nullable: self.nullable }
    }

    pub fn name(&self) -> (r: &str)
        ensures
            r@ == self.name@,
    {
        self.name.as_str()
    }
}

/// The metadata of one table: its identifier (the path segments of a possibly
/// schema-qualified name), its columns in order, and its primary-key columns.
pub struct Schema {
    pub identifier: Vec<String>,
    pub columns: Vec<Column>,
    pub primary_keys: Vec<Column>,
}

/// The names of the columns.
pub open spec fn column_names(cols: Seq<Column>) -> Seq<Seq<char>> {
    cols.map_values(|c: Column| c.name@)
}

impl Schema {
    /// The table's name: the identifier's segments joined with dots.
    pub open spec fn table_text(&self) -> Seq<char> {
        join(views(self.identifier@), "."@)
    }

    /// Whether a column of this name is one of the primary keys.
    pub open spec fn is_key(&self, name: Seq<char>) -> bool {
        column_names(self.primary_keys@).contains(name)
    }

    pub fn new(identifier: Vec<String>, columns: Vec<Column>, primary_keys: Vec<Column>) -> (r:
        Schema)
        ensures
            r == (Schema { identifier, columns, primary_keys }),
    {
        Schema { identifier, columns, primary_keys }
    }

    /// The table's name, its segments joined with dots.
    pub fn table_name(&self) -> (r: String)
        ensures
            r@ == self.table_text(),
    {
        join_strings(&self.identifier, ".")
    }

    /// Whether `name` names a primary-key column.
    pub fn is_primary_key(&self, name: &String) -> (r: bool)
        ensures
            r == self.is_key(name@),
    {
        let mut i: usize = 0;
        while i < self.primary_keys.len()
            invariant
                i <= self.primary_keys.len(),
                forall|j: int| 0 <= j < i ==> self.primary_keys@[j].name@ != name@,
            decreases self.primary_keys.len() - i,
        {
            if self.primary_keys[i].name == *name {
                assert(column_names(self.primary_keys@)[i as int] == name@);
                return true;
            }
            i = i + 1;
        }
        proof {
            if column_names(self.primary_keys@).contains(name@) {
                let k = choose|k: int|
                    0 <= k < column_names(self.primary_keys@).len()
                        && column_names(self.primary_keys@)[k] == name@;
                assert(self.primary_keys@[k].name@ == name@);
            }
        }
        false
    }
}

/// The value that the first field of this name holds, if any.
pub open spec fn lookup(fields: Seq<(String, Value)>, name: Seq<char>) -> Option<Value>
    decreases fields.len(),
{
    if fields.len() == 0 {
        None
    } else if fields[0].0@ == name {
        Some(fields[0].1)
    } else {
        lookup(fields.drop_first(), name)
    }
}

/// The values of one row object, by column name.
pub struct Record {
    pub fields: Vec<(String, Value)>,
}

impl Record {
    pub fn new(fields: Vec<(String, Value)>) -> (r: Record)
        ensures
            r.fields == fields,
    {
        Record { fields }
    }

    /// The value held for the column `name`.
    pub fn get(&self, name: &String) -> (r: Option<Value>)
        ensures
            r == lookup(self.fields@, name@),
    {
        let mut i: usize = 0;
        assert(self.fields@.skip(0) =~= self.fields@);
        while i < self.fields.len()
            invariant
                i <= self.fields.len(),
                lookup(self.fields@, name@) == lookup(self.fields@.skip(i as int), name@),
            decreases self.fields.len() - i,
        {
            if self.fields[i].0 == *name {
                return Some(self.fields[i].1.duplicate());
            }
            assert(self.fields@.skip(i as int).drop_first() =~= self.fields@.skip(i + 1));
            i = i + 1;
        }
        None
    }
}

} // verus!
