//! The migration artifact: the recorded statements under a fresh identifier,
//! the file they are written to, and their replay.

use vstd::prelude::*;
use vstd::string::*;
use crate::text::{decimal_text, push_decimal};

verus! {

/// The texts of a sequence of strings.
pub open spec fn texts(strings: Seq<String>) -> Seq<Seq<char>> {
    strings.map_values(|s: String| s@)
}

/// The highest of `ids`, and -1 where there is none.
pub open spec fn highest(ids: Seq<u64>) -> int
    decreases ids.len(),
{
    if ids.len() == 0 {
        -1
    } else if ids.last() > highest(ids.drop_last()) {
        ids.last() as int
    } else {
        highest(ids.drop_last())
    }
}

/// The identifier for a migration made at time `now` beside the migrations
/// `existing`: the time, or the successor of the highest existing identifier
/// where that is later; the highest number there is when that successor does
/// not exist.
pub open spec fn fresh_identifier(existing: Seq<u64>, now: u64) -> u64 {
    let next = highest(existing) + 1;
    if next > u64::MAX {
        u64::MAX
    } else if next > now {
        next as u64
    } else {
        now
    }
}

/// Whether `id` may name a migration made at time `now` beside `existing`:
/// it is not before `now` and later than every existing identifier.
pub open spec fn admissible(existing: Seq<u64>, now: u64, id: u64) -> bool {
    &&& id >= now
    &&& forall|i: int| 0 <= i < existing.len() ==> #[trigger] existing[i] < id
}

/// `highest` is an upper bound that is reached.
pub proof fn lemma_highest(ids: Seq<u64>)
    ensures
        forall|i: int| 0 <= i < ids.len() ==> #[trigger] ids[i] <= highest(ids),
        ids.len() > 0 ==> ids.contains(highest(ids) as u64) && highest(ids) >= 0,
        ids.len() == 0 ==> highest(ids) == -1,
        -1 <= highest(ids) <= u64::MAX,
    decreases ids.len(),
{
    if ids.len() > 0 {
        let front = ids.drop_last();
        lemma_highest(front);
        assert forall|i: int| 0 <= i < ids.len() implies #[trigger] ids[i] <= highest(ids) by {
            if i < front.len() {
                assert(front[i] == ids[i]);
            }
        }
        if ids.last() > highest(front) {
            assert(ids[ids.len() - 1] == highest(ids) as u64);
        } else {
            let at = choose|at: int| 0 <= at < front.len() && front[at] == highest(front) as u64;
            assert(ids[at] == highest(ids) as u64);
        }
    }
}

/// Beside identifiers that leave room above them, the fresh identifier is
/// new and admissible, and it is the least admissible number.
pub proof fn lemma_fresh_identifier(existing: Seq<u64>, now: u64)
    requires
        forall|i: int| 0 <= i < existing.len() ==> #[trigger] existing[i] < u64::MAX,
    ensures
        !existing.contains(fresh_identifier(existing, now)),
        admissible(existing, now, fresh_identifier(existing, now)),
        forall|other: u64| #[trigger]
            admissible(existing, now, other) ==> fresh_identifier(existing, now) <= other,
{
    lemma_highest(existing);
    let id = fresh_identifier(existing, now);
    if existing.len() > 0 {
        let at = choose|at: int| 0 <= at < existing.len() && existing[at] == highest(existing) as u64;
        assert(existing[at] < u64::MAX);
        assert forall|other: u64| #[trigger] admissible(existing, now, other) implies id
            <= other by {
            assert(existing[at] < other);
        }
    }
    assert forall|i: int| 0 <= i < existing.len() implies #[trigger] existing[i] < id by {
        assert(existing[i] <= highest(existing));
    }
    if existing.contains(id) {
        let at = choose|at: int| 0 <= at < existing.len() && existing[at] == id;
        assert(existing[at] < id);
    }
}

/// Allocates the identifier for a migration made at time `now` beside the
/// migrations `existing`.
pub fn allocate_identifier(existing: &Vec<u64>, now: u64) -> (r: u64)
    ensures
        r == fresh_identifier(existing@, now),
{
    let mut candidate: u64 = now;
    let mut i: usize = 0;
    let ghost mut top: int = -1;
    while i < existing.len()
        invariant
            0 <= i <= existing@.len(),
            top == highest(existing@.subrange(0, i as int)),
            candidate == fresh_identifier(existing@.subrange(0, i as int), now),
        decreases existing@.len() - i,
    {
        proof {
            assert(existing@.subrange(0, i + 1).drop_last() =~= existing@.subrange(0, i as int));
            lemma_highest(existing@.subrange(0, i as int));
            top = highest(existing@.subrange(0, i + 1));
        }
        let id = existing[i];
        if id == u64::MAX {
            candidate = u64::MAX;
        } else if id + 1 > candidate {
            candidate = id + 1;
        }
        i += 1;
    }
    assert(existing@.subrange(0, i as int) =~= existing@);
    candidate
}

/// The name of the file that holds the migration `identifier` called `slug`.
pub open spec fn file_name_text(identifier: u64, slug: Seq<char>) -> Seq<char> {
    "U"@ + decimal_text(identifier as nat) + "__"@ + slug + ".sql"@
}

/// The script of `statements`: each statement in its turn, closed by a
/// semicolon and a line feed.
pub open spec fn script_text(statements: Seq<Seq<char>>) -> Seq<char>
    decreases statements.len(),
{
    if statements.len() == 0 {
        Seq::empty()
    } else {
        script_text(statements.drop_last()) + statements.last() + ";\n"@
    }
}

/// The statements of one recording session under a fresh identifier, ready
/// to be written out and replayed. Nothing changes it once it is made.
#[derive(Debug)]
pub struct PendingArtifact {
    identifier: u64,
    slug: String,
    statements: Vec<String>,
}

impl PendingArtifact {
    /// The identifier of the migration.
    pub closed spec fn identifier(&self) -> u64 {
        self.identifier
    }

    /// The slug of the migration: the name of the operation that made it.
    pub closed spec fn slug(&self) -> Seq<char> {
        self.slug@
    }

    /// The statements of the migration, in the order of their replay.
    pub closed spec fn statements(&self) -> Seq<Seq<char>> {
        texts(self.statements@)
    }

    pub(crate) fn new(identifier: u64, slug: String, statements: Vec<String>) -> (r: Self)
        ensures
            r.identifier() == identifier,
            r.slug() == slug@,
            r.statements() == texts(statements@),
    {
        PendingArtifact { identifier, slug, statements }
    }

    /// The identifier of the migration.
    pub fn id(&self) -> (r: u64)
        ensures
            r == self.identifier(),
    {
        self.identifier
    }

    /// The number of statements of the migration.
    pub fn statement_count(&self) -> (r: usize)
        ensures
            r == self.statements().len(),
    {
        self.statements.len()
    }

    /// The statement at position `index` of the replay.
    pub fn statement(&self, index: usize) -> (r: Option<&String>)
        ensures
            match r {
                Some(s) => index < self.statements().len() && s@ == self.statements()[index as int],
                None => index >= self.statements().len(),
            },
    {
        if index < self.statements.len() {
            Some(&self.statements[index])
        } else {
            None
        }
    }

    /// The name of the migration file.
    pub fn file_name(&self) -> (r: String)
        ensures
            r@ == file_name_text(self.identifier(), self.slug()),
    {
        let mut name = String::from_str("U");
        push_decimal(&mut name, self.identifier);
        name.append("__");
        name.append(self.slug.as_str());
        name.append(".sql");
        name
    }

    /// The content of the migration file.
    pub fn content(&self) -> (r: String)
        ensures
            r@ == script_text(self.statements()),
    {
        let mut out = String::new();
        let mut i: usize = 0;
        while i < self.statements.len()
            invariant
                0 <= i <= self.statements@.len(),
                out@ == script_text(texts(self.statements@.subrange(0, i as int))),
            decreases self.statements@.len() - i,
        {
            proof {
                let upto = texts(self.statements@.subrange(0, i + 1));
                assert(upto.drop_last() =~= texts(self.statements@.subrange(0, i as int)));
                assert(upto.last() == self.statements@[i as int]@);
            }
            out.append(self.statements[i].as_str());
            out.append(";\n");
            i += 1;
        }
        assert(self.statements@.subrange(0, i as int) =~= self.statements@);
        out
    }
}

} // verus!
