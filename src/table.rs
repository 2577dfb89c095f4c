use vstd::prelude::*;

verus! {

/// A row that carries its own store-assigned primary key.
pub trait Keyed {
    spec fn key(&self) -> u64;

    fn id(&self) -> (r: u64)
        ensures
            r == self.key(),
    ;
}

/// The mathematical content of a table: its rows in insertion order and the
/// next identifier its counter will hand out.
pub struct TableView<T> {
    pub rows: Seq<T>,
    pub next_id: u64,
}

/// Rows of one entity kind, with an auto-increment key counter.
///
/// Keys are assigned from `next_id`, which only grows, so keys are never reused;
/// the rows are kept in increasing key order.
#[derive(Clone, Debug, PartialEq, Eq)]
pub struct Table<T> {
    rows: Vec<T>,
    next_id: u64,
}

impl<T> View for Table<T> {
    type V = TableView<T>;

    closed spec fn view(&self) -> TableView<T> {
        TableView { rows: self.rows@, next_id: self.next_id }
    }
}

impl<T: Keyed> TableView<T> {
    /// Keys are strictly increasing, every key is in `1..next_id`.
    pub open spec fn wf(self) -> bool {
        &&& 1 <= self.next_id
        &&& forall|i: int| 0 <= i < self.rows.len() ==> 1 <= #[trigger] self.rows[i].key() < self.next_id
        &&& forall|i: int, j: int|
            0 <= i < j < self.rows.len() ==> #[trigger] self.rows[i].key() < #[trigger] self.rows[j].key()
    }

    pub open spec fn contains_key(self, id: u64) -> bool {
        exists|i: int| 0 <= i < self.rows.len() && #[trigger] self.rows[i].key() == id
    }

    /// No rows, and the counter at its first key.
    pub open spec fn is_fresh(self) -> bool {
        self.rows.len() == 0 && self.next_id == 1
    }

    /// Room for `n` more inserts before the key counter runs out.
    pub open spec fn has_room(self, n: int) -> bool {
        self.next_id + n <= u64::MAX
    }

    /// The table after inserting `row`, which carries the next key.
    pub open spec fn inserted(self, row: T) -> TableView<T> {
        TableView { rows: self.rows.push(row), next_id: (self.next_id + 1) as u64 }
    }

    /// The table after inserting `rows`, which carry the next keys in order.
    pub open spec fn appended(self, rows: Seq<T>) -> TableView<T> {
        TableView { rows: self.rows + rows, next_id: (self.next_id + rows.len()) as u64 }
    }

    /// The table after replacing the row at position `i`.
    pub open spec fn replaced(self, i: int, row: T) -> TableView<T> {
        TableView { rows: self.rows.update(i, row), next_id: self.next_id }
    }

    /// Position of the row with key `id`; meaningful when the key is present.
    pub open spec fn index_of(self, id: u64) -> int {
        choose|i: int| 0 <= i < self.rows.len() && #[trigger] self.rows[i].key() == id
    }

    /// The row with key `id`; meaningful when the key is present.
    pub open spec fn row(self, id: u64) -> T {
        self.rows[self.index_of(id)]
    }
}

impl<T: Keyed> Table<T> {
    pub fn new() -> (r: Self)
        ensures
            r@.is_fresh(),
            r@.wf(),
    {
        Table { rows: Vec::new(), next_id: 1 }
    }

    pub fn len(&self) -> (r: usize)
        ensures
            r == self@.rows.len(),
    {
        self.rows.len()
    }

    pub fn rows(&self) -> (r: &Vec<T>)
        ensures
            r@ == self@.rows,
    {
        &self.rows
    }

    /// The key the next inserted row must carry.
    pub fn next_id(&self) -> (r: u64)
        ensures
            r == self@.next_id,
    {
        self.next_id
    }

    /// Position of the row with key `id`, or `None` when no row has it.
    pub fn find(&self, id: u64) -> (r: Option<usize>)
        ensures
            match r {
                Some(i) => i < self@.rows.len() && self@.rows[i as int].key() == id,
                None => !self@.contains_key(id),
            },
    {
        let mut i: usize = 0;
        while i < self.rows.len()
            invariant
                i <= self.rows@.len(),
                forall|j: int| 0 <= j < i ==> #[trigger] self.rows@[j].key() != id,
            decreases self.rows@.len() - i,
        {
            if self.rows[i].id() == id {
                return Some(i);
            }
            i = i + 1;
        }
        None
    }

    /// The row with key `id`, if any.
    pub fn get(&self, id: u64) -> (r: Option<&T>)
        requires
            self@.wf(),
        ensures
            match r {
                Some(row) => self@.contains_key(id) && *row == self@.row(id) && row.key() == id,
                None => !self@.contains_key(id),
            },
    {
        match self.find(id) {
            Some(i) => {
                proof {
                    self@.lemma_index_of(i as int);
                }
                Some(&self.rows[i])
            },
            None => None,
        }
    }

    /// Appends `row`, which must carry the next key, and advances the counter.
    pub fn insert(&mut self, row: T)
        requires
            old(self)@.wf(),
            old(self)@.has_room(1),
            row.key() == old(self)@.next_id,
        ensures
            final(self)@ == old(self)@.inserted(row),
            final(self)@.wf(),
    {
        self.rows.push(row);
        self.next_id = self.next_id + 1;
    }

    /// Replaces the row at position `i` with one of the same key.
    pub fn replace(&mut self, i: usize, row: T)
        requires
            old(self)@.wf(),
            i < old(self)@.rows.len(),
            row.key() == old(self)@.rows[i as int].key(),
        ensures
            final(self)@ == old(self)@.replaced(i as int, row),
            final(self)@.wf(),
    {
        self.rows.set(i, row);
        assert(forall|k: int| 0 <= k < self@.rows.len() && k != i ==> self@.rows[k] == old(self)@.rows[k]);
    }

    /// Removes the row with key `id`, if there is one.
    pub fn delete(&mut self, id: u64)
        requires
            old(self)@.wf(),
        ensures
            final(self)@.wf(),
            final(self)@.next_id == old(self)@.next_id,
            !final(self)@.contains_key(id),
            old(self)@.contains_key(id) ==> final(self)@.rows == old(self)@.rows.remove(
                old(self)@.index_of(id),
            ),
            !old(self)@.contains_key(id) ==> final(self)@ == old(self)@,
    {
        match self.find(id) {
            Some(i) => {
                proof {
                    self@.lemma_index_of(i as int);
                }
                let ghost before = self@.rows;
                self.rows.remove(i);
                assert forall|k: int| 0 <= k < self@.rows.len() implies #[trigger] self@.rows[k].key()
                    != id by {
                    if k < i {
                        assert(before[k].key() < before[i as int].key());
                    } else {
                        assert(self@.rows[k] == before[k + 1]);
                        assert(before[i as int].key() < before[k + 1].key());
                    }
                }
            },
            None => {},
        }
    }
}

impl<T: Keyed> TableView<T> {
    /// In a well-formed table a key sits at one position only.
    pub proof fn lemma_index_of(self, i: int)
        requires
            self.wf(),
            0 <= i < self.rows.len(),
        ensures
            self.contains_key(self.rows[i].key()),
            self.index_of(self.rows[i].key()) == i,
            self.row(self.rows[i].key()) == self.rows[i],
    {
        let k = self.rows[i].key();
        assert(self.rows[i].key() == k);
        let j = self.index_of(k);
        if j < i {
            assert(self.rows[j].key() < self.rows[i].key());
        } else if i < j {
            assert(self.rows[i].key() < self.rows[j].key());
        }
    }
}

} // verus!

verus! {

/// The keys of a table's rows, in row order.
pub fn keys<T: Keyed>(t: &Table<T>) -> (r: Vec<u64>)
    requires
        t@.wf(),
    ensures
        forall|a: int, b: int| 0 <= a < b < r@.len() ==> #[trigger] r@[a] < #[trigger] r@[b],
        r@.len() == t@.rows.len(),
        forall|k: int| 0 <= k < r@.len() ==> #[trigger] r@[k] == t@.rows[k].key(),
        forall|k: int| 0 <= k < r@.len() ==> t@.contains_key(#[trigger] r@[k]),
{
    let rows = t.rows();
    let mut out: Vec<u64> = Vec::new();
    let mut k: usize = 0;
    while k < rows.len()
        invariant
            k <= rows@.len(),
            rows@ == t@.rows,
            out@.len() == k,
            forall|j: int| 0 <= j < k ==> #[trigger] out@[j] == rows@[j].key(),
        decreases rows@.len() - k,
    {
        out.push(rows[k].id());
        k = k + 1;
    }
    assert forall|j: int| 0 <= j < out@.len() implies t@.contains_key(#[trigger] out@[j]) by {
        assert(t@.rows[j].key() == out@[j]);
    }
    out
}

} // verus!
