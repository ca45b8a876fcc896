//! Table and view metadata, and the cache that serves it by name.

use vstd::prelude::*;
use crate::text::same_text;

verus! {

/// The storage class a column was declared with.
#[derive(Clone, Copy, Debug, PartialEq, Eq, Structural)]
pub enum ColumnDataType {
    Null,
    Any,
    Blob,
    Text,
    Integer,
    Real,
    Numeric,
}

/// The storage class that the schema means by the word `word`, which is to
/// be in capitals: one of the six words for a class, and `Any` for every
/// other word.
pub open spec fn data_type_of(word: Seq<char>) -> ColumnDataType {
    if word == "NULL"@ {
        ColumnDataType::Null
    } else if word == "BLOB"@ {
        ColumnDataType::Blob
    } else if word == "TEXT"@ {
        ColumnDataType::Text
    } else if word == "INTEGER"@ {
        ColumnDataType::Integer
    } else if word == "REAL"@ {
        ColumnDataType::Real
    } else if word == "NUMERIC"@ {
        ColumnDataType::Numeric
    } else {
        ColumnDataType::Any
    }
}

impl ColumnDataType {
    /// The storage class that the schema means by the word `word`.
    pub fn named(word: &str) -> (r: ColumnDataType)
        ensures
            r == data_type_of(word@),
    {
        if same_text(word, "NULL") {
            ColumnDataType::Null
        } else if same_text(word, "BLOB") {
            ColumnDataType::Blob
        } else if same_text(word, "TEXT") {
            ColumnDataType::Text
        } else if same_text(word, "INTEGER") {
            ColumnDataType::Integer
        } else if same_text(word, "REAL") {
            ColumnDataType::Real
        } else if same_text(word, "NUMERIC") {
            ColumnDataType::Numeric
        } else {
            ColumnDataType::Any
        }
    }
}

/// One column of a table or view: its definition, whether it is the primary
/// key, and the check constraints declared on it.
#[derive(Clone, Debug)]
pub struct Column {
    pub name: String,
    pub data_type: ColumnDataType,
    pub primary: bool,
    pub checks: Vec<String>,
}

/// What the cache holds about a table.
#[derive(Clone, Debug)]
pub struct TableMeta {
    pub name: String,
    pub columns: Vec<Column>,
}

/// What the cache holds about a view.
#[derive(Clone, Debug)]
pub struct ViewMeta {
    pub name: String,
    pub columns: Vec<Column>,
}

/// The result of introspecting the live schema once.
#[derive(Clone, Debug)]
pub struct SchemaSnapshot {
    pub tables: Vec<TableMeta>,
    pub views: Vec<ViewMeta>,
}

/// Why the cache could not be refreshed.
#[derive(Clone, Debug)]
pub enum CacheError {
    /// Introspecting the schema failed; the text is the engine's message.
    Introspection(String),
}

/// Something that is found by its name.
pub trait Named {
    /// The name, as a sequence of characters.
    spec fn name_text(&self) -> Seq<char>;

    /// The name.
    fn name(&self) -> (r: &str)
        ensures
            r@ == self.name_text(),
    ;
}

impl Named for Column {
    open spec fn name_text(&self) -> Seq<char> {
        self.name@
    }

    fn name(&self) -> (r: &str) {
        self.name.as_str()
    }
}

impl Named for TableMeta {
    open spec fn name_text(&self) -> Seq<char> {
        self.name@
    }

    fn name(&self) -> (r: &str) {
        self.name.as_str()
    }
}

impl Named for ViewMeta {
    open spec fn name_text(&self) -> Seq<char> {
        self.name@
    }

    fn name(&self) -> (r: &str) {
        self.name.as_str()
    }
}

/// Whether some item of `items` is called `name`.
pub open spec fn named<T: Named>(items: Seq<T>, name: Seq<char>) -> bool {
    exists|i: int| 0 <= i < items.len() && (#[trigger] items[i]).name_text() == name
}

/// Whether `i` is the first position of `items` that holds an item called
/// `name`.
pub open spec fn is_first_named<T: Named>(items: Seq<T>, name: Seq<char>, i: int) -> bool {
    &&& 0 <= i < items.len()
    &&& items[i].name_text() == name
    &&& forall|j: int| 0 <= j < i ==> (#[trigger] items[j]).name_text() != name
}

/// The first position of `items` that holds an item called `name`; only
/// meaningful when there is one.
pub open spec fn first_named<T: Named>(items: Seq<T>, name: Seq<char>) -> int {
    choose|i: int| is_first_named(items, name, i)
}

/// The first item of `items` called `name`, if any.
pub open spec fn lookup<T: Named>(items: Seq<T>, name: Seq<char>) -> Option<T> {
    if named(items, name) {
        Some(items[first_named(items, name)])
    } else {
        None
    }
}

/// Where an item is called `name`, one is the first that is.
pub proof fn lemma_first_named_exists<T: Named>(items: Seq<T>, name: Seq<char>, k: int)
    requires
        0 <= k < items.len(),
        items[k].name_text() == name,
    ensures
        is_first_named(items, name, first_named(items, name)),
        first_named(items, name) <= k,
    decreases k,
{
    if exists|j: int| 0 <= j < k && (#[trigger] items[j]).name_text() == name {
        let j = choose|j: int| 0 <= j < k && (#[trigger] items[j]).name_text() == name;
        lemma_first_named_exists(items, name, j);
    } else {
        assert(is_first_named(items, name, k));
        lemma_first_named_unique(items, name, k);
    }
}

/// A first position is the only first position.
pub proof fn lemma_first_named_unique<T: Named>(items: Seq<T>, name: Seq<char>, i: int)
    requires
        is_first_named(items, name, i),
    ensures
        named(items, name),
        first_named(items, name) == i,
        lookup(items, name) == Some(items[i]),
{
    let j = first_named(items, name);
    assert(is_first_named(items, name, j));
    if j < i {
        assert(items[j].name_text() != name);
    }
    if i < j {
        assert(items[i].name_text() != name);
    }
}

/// The position of the first item called `name`.
pub fn position<T: Named>(items: &Vec<T>, name: &str) -> (r: Option<usize>)
    ensures
        match r {
            Some(i) => is_first_named(items@, name@, i as int),
            None => !named(items@, name@),
        },
{
    let mut i: usize = 0;
    while i < items.len()
        invariant
            0 <= i <= items@.len(),
            forall|j: int| 0 <= j < i ==> (#[trigger] items@[j]).name_text() != name@,
        decreases items@.len() - i,
    {
        if same_text(items[i].name(), name) {
            return Some(i);
        }
        i += 1;
    }
    None
}

/// The first item called `name`.
pub fn find<'a, T: Named>(items: &'a Vec<T>, name: &str) -> (r: Option<&'a T>)
    ensures
        match r {
            Some(item) => lookup(items@, name@) == Some(*item),
            None => lookup(items@, name@) is None,
        },
{
    match position(items, name) {
        Some(i) => {
            proof {
                lemma_first_named_unique(items@, name@, i as int);
            }
            Some(&items[i])
        },
        None => None,
    }
}

/// The items of `items` that are not called `name`, in their order.
pub open spec fn without_name<T: Named>(items: Seq<T>, name: Seq<char>) -> Seq<T>
    decreases items.len(),
{
    if items.len() == 0 {
        Seq::empty()
    } else if items.last().name_text() == name {
        without_name(items.drop_last(), name)
    } else {
        without_name(items.drop_last(), name).push(items.last())
    }
}

/// Nothing in `without_name(items, name)` is called `name`, and it holds
/// under every other name what `items` holds under it.
pub proof fn lemma_without_name<T: Named>(items: Seq<T>, name: Seq<char>)
    ensures
        !named(without_name(items, name), name),
        forall|other: Seq<char>|
            other != name ==> #[trigger] lookup(without_name(items, name), other) == lookup(
                items,
                other,
            ),
    decreases items.len(),
{
    let kept = without_name(items, name);
    if items.len() == 0 {
        assert forall|other: Seq<char>| other != name implies #[trigger] lookup(kept, other)
            == lookup(items, other) by {}
    } else {
        let front = items.drop_last();
        let last = items.last();
        let kept_front = without_name(front, name);
        lemma_without_name(front, name);
        if named(kept, name) {
            let i = choose|i: int| 0 <= i < kept.len() && (#[trigger] kept[i]).name_text() == name;
            if i < kept_front.len() {
                assert(kept_front[i].name_text() == name);
            }
        }
        assert forall|other: Seq<char>| other != name implies #[trigger] lookup(kept, other)
            == lookup(items, other) by {
            lemma_lookup_push(front, last, other);
            assert(front.push(last) =~= items);
            if last.name_text() == name {
                assert(kept == kept_front);
            } else {
                lemma_lookup_push(kept_front, last, other);
            }
        }
    }
}

/// Looking a name up in a sequence with one more item at its end: what the
/// sequence held under that name where it held something, else the new item
/// where that is its name, else nothing.
pub proof fn lemma_lookup_push<T: Named>(items: Seq<T>, last: T, name: Seq<char>)
    ensures
        lookup(items.push(last), name) == if named(items, name) {
            lookup(items, name)
        } else if last.name_text() == name {
            Some(last)
        } else {
            None
        },
{
    let more = items.push(last);
    if named(items, name) {
        let k = choose|k: int| 0 <= k < items.len() && (#[trigger] items[k]).name_text() == name;
        lemma_first_named_exists(items, name, k);
        let i = first_named(items, name);
        assert(more[i] == items[i]);
        assert forall|j: int| 0 <= j < i implies (#[trigger] more[j]).name_text() != name by {
            assert(more[j] == items[j]);
        }
        lemma_first_named_unique(more, name, i);
    } else if last.name_text() == name {
        let i = items.len() as int;
        assert(more[i] == last);
        assert forall|j: int| 0 <= j < i implies (#[trigger] more[j]).name_text() != name by {
            assert(more[j] == items[j]);
        }
        lemma_first_named_unique(more, name, i);
    } else {
        if named(more, name) {
            let i = choose|i: int| 0 <= i < more.len() && (#[trigger] more[i]).name_text() == name;
            if i < items.len() {
                assert(items[i] == more[i]);
            }
        }
    }
}

/// Removes from `items` every item called `name`.
pub fn remove_named<T: Named>(items: &mut Vec<T>, name: &str)
    ensures
        final(items)@ == without_name(old(items)@, name@),
{
    let ghost before = items@;
    let mut kept: usize = 0;
    let mut seen: usize = 0;
    let total = items.len();
    while seen < total
        invariant
            before == old(items)@,
            total == before.len(),
            0 <= seen <= total,
            0 <= kept <= seen,
            items@.len() == kept + (total - seen),
            items@.subrange(0, kept as int) == without_name(before.subrange(0, seen as int), name@),
            items@.subrange(kept as int, items@.len() as int) == before.subrange(
                seen as int,
                total as int,
            ),
        decreases total - seen,
    {
        let ghost current = items@;
        assert(current[kept as int] == before[seen as int]) by {
            assert(current.subrange(kept as int, current.len() as int)[0] == before.subrange(
                seen as int,
                total as int,
            )[0]);
        }
        assert(before.subrange(0, seen + 1).drop_last() =~= before.subrange(0, seen as int));
        assert(before.subrange(0, seen + 1).last() == before[seen as int]);
        assert(before.subrange(seen as int, total as int).drop_first() =~= before.subrange(
            seen + 1,
            total as int,
        ));
        if same_text(items[kept].name(), name) {
            items.remove(kept);
            assert(items@.subrange(0, kept as int) =~= current.subrange(0, kept as int));
            assert(items@.subrange(kept as int, items@.len() as int) =~= current.subrange(
                kept as int,
                current.len() as int,
            ).drop_first());
        } else {
            assert(current.subrange(0, kept + 1) =~= current.subrange(0, kept as int).push(
                current[kept as int],
            ));
            assert(current.subrange(kept + 1, current.len() as int) =~= current.subrange(
                kept as int,
                current.len() as int,
            ).drop_first());
            kept += 1;
        }
        seen += 1;
    }
    assert(before.subrange(0, total as int) =~= before);
    assert(items@.subrange(0, kept as int) =~= items@);
}

impl Column {
    /// Whether the column is the table's primary key.
    pub fn is_primary(&self) -> (r: bool)
        ensures
            r == self.primary,
    {
        self.primary
    }
}

impl TableMeta {
    /// The first column called `name`.
    pub fn column_by_name(&self, name: &str) -> (r: Option<&Column>)
        ensures
            match r {
                Some(column) => lookup(self.columns@, name@) == Some(*column),
                None => lookup(self.columns@, name@) is None,
            },
    {
        find(&self.columns, name)
    }
}

/// Metadata of the tables and views of the live schema, served by name.
pub struct TableMetadataCache {
    tables: Vec<TableMeta>,
    views: Vec<ViewMeta>,
}

impl TableMetadataCache {
    /// The cached tables, in the order the schema listed them.
    pub closed spec fn tables(&self) -> Seq<TableMeta> {
        self.tables@
    }

    /// The cached views, in the order the schema listed them.
    pub closed spec fn views(&self) -> Seq<ViewMeta> {
        self.views@
    }

    /// Whether the cache describes a table or a view called `name`.
    pub open spec fn knows(&self, name: Seq<char>) -> bool {
        named(self.tables(), name) || named(self.views(), name)
    }

    /// A cache that describes nothing.
    pub fn new() -> (r: Self)
        ensures
            r.tables() == Seq::<TableMeta>::empty(),
            r.views() == Seq::<ViewMeta>::empty(),
    {
        TableMetadataCache { tables: Vec::new(), views: Vec::new() }
    }

    /// The metadata of the table called `name`.
    pub fn get(&self, name: &str) -> (r: Option<&TableMeta>)
        ensures
            match r {
                Some(table) => lookup(self.tables(), name@) == Some(*table),
                None => lookup(self.tables(), name@) is None,
            },
    {
        find(&self.tables, name)
    }

    /// The metadata of the view called `name`.
    pub fn get_view(&self, name: &str) -> (r: Option<&ViewMeta>)
        ensures
            match r {
                Some(view) => lookup(self.views(), name@) == Some(*view),
                None => lookup(self.views(), name@) is None,
            },
    {
        find(&self.views, name)
    }

    /// Forgets what the cache holds under `name`, table or view, and keeps
    /// the rest.
    pub fn invalidate(&mut self, name: &str)
        ensures
            final(self).tables() == without_name(old(self).tables(), name@),
            final(self).views() == without_name(old(self).views(), name@),
    {
        remove_named(&mut self.tables, name);
        remove_named(&mut self.views, name);
    }

    /// Replaces everything the cache holds by the outcome of a fresh
    /// introspection of the schema. When the introspection failed the cache
    /// keeps what it held and the failure is handed on.
    pub fn invalidate_all(&mut self, introspection: Result<SchemaSnapshot, CacheError>) -> (r:
        Result<(), CacheError>)
        ensures
            match introspection {
                Ok(snapshot) => {
                    &&& r is Ok
                    &&& final(self).tables() == snapshot.tables@
                    &&& final(self).views() == snapshot.views@
                },
                Err(e) => {
                    &&& r == Err::<(), CacheError>(e)
                    &&& final(self).tables() == old(self).tables()
                    &&& final(self).views() == old(self).views()
                },
            },
    {
        match introspection {
            Ok(snapshot) => {
                self.tables = snapshot.tables;
                self.views = snapshot.views;
                Ok(())
            },
            Err(e) => Err(e),
        }
    }
}

} // verus!
