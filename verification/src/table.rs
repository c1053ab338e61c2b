//! The table of canned responses behind a mock handle: a mapping from
//! operation keys to response bodies, filled before use and only read
//! while requests are answered.

use vstd::prelude::*;

verus! {

/// A key of a mock table. Two keys are the same key exactly when their
/// views are equal.
pub trait TableKey: View + Sized {
    /// Whether `self` and `other` are the same key.
    fn same_key(&self, other: &Self) -> (r: bool)
        ensures
            r == (self@ == other@),
    ;

    /// Another value of the same key.
    fn duplicate(&self) -> (r: Self)
        ensures
            r@ == self@,
    ;
}

impl TableKey for String {
    fn same_key(&self, other: &String) -> (r: bool) {
        *self == *other
    }

    fn duplicate(&self) -> (r: String) {
        self.clone()
    }
}

#[derive(Debug)]
/// One canned response: the key it answers and the body it gives.
pub struct Fixture<K> {
    pub key: K,
    pub body: String,
}

/// The body that the fixtures give for `key`: that of the last fixture
/// with this key, if there is one.
pub open spec fn find<K: TableKey>(fixtures: Seq<Fixture<K>>, key: K::V) -> Option<Seq<char>>
    decreases fixtures.len(),
{
    if fixtures.len() == 0 {
        None
    } else if fixtures.last().key@ == key {
        Some(fixtures.last().body@)
    } else {
        find(fixtures.drop_last(), key)
    }
}

#[derive(Debug)]
/// A mock table. Its view is the mapping from keys to bodies.
pub struct MockTable<K> {
    fixtures: Vec<Fixture<K>>,
}

impl<K: TableKey> View for MockTable<K> {
    type V = Map<K::V, Seq<char>>;

    closed spec fn view(&self) -> Map<K::V, Seq<char>> {
        Map::new(
            |key: K::V| find(self.fixtures@, key) is Some,
            |key: K::V| find(self.fixtures@, key)->Some_0,
        )
    }
}

/// Fixtures with the same keys and bodies, one by one, give the same body
/// for every key.
proof fn find_by_views<K: TableKey>(left: Seq<Fixture<K>>, right: Seq<Fixture<K>>, key: K::V)
    requires
        left.len() == right.len(),
        forall|i: int|
            0 <= i < left.len() ==> (#[trigger] left[i]).key@ == right[i].key@ && left[i].body@
                == right[i].body@,
    ensures
        find(left, key) == find(right, key),
    decreases left.len(),
{
    if left.len() > 0 {
        find_by_views(left.drop_last(), right.drop_last(), key);
    }
}

impl<K: TableKey> Clone for MockTable<K> {
    /// A table with the same mapping.
    fn clone(&self) -> (copy: MockTable<K>)
        ensures
            copy@ == self@,
    {
        let mut fixtures: Vec<Fixture<K>> = Vec::new();
        let mut i: usize = 0;
        while i < self.fixtures.len()
            invariant
                i <= self.fixtures.len(),
                fixtures@.len() == i,
                forall|j: int|
                    0 <= j < i ==> (#[trigger] fixtures@[j]).key@ == self.fixtures@[j].key@
                        && fixtures@[j].body@ == self.fixtures@[j].body@,
            decreases self.fixtures.len() - i,
        {
            let fixture = &self.fixtures[i];
            fixtures.push(Fixture { key: fixture.key.duplicate(), body: fixture.body.clone() });
            i += 1;
        }
        let copy = MockTable { fixtures };
        proof {
            assert forall|key: K::V| find(copy.fixtures@, key) == find(self.fixtures@, key) by {
                find_by_views(copy.fixtures@, self.fixtures@, key);
            }
            assert(copy@ =~= self@);
        }
        copy
    }
}

impl<K: TableKey> MockTable<K> {
    /// The empty table.
    pub fn new() -> (table: MockTable<K>)
        ensures
            table@ == Map::<K::V, Seq<char>>::empty(),
    {
        let table = MockTable { fixtures: Vec::new() };
        assert(table@ =~= Map::<K::V, Seq<char>>::empty());
        table
    }

    /// Stores `body` under `key`, in place of what the key had before.
    pub fn insert(&mut self, key: K, body: String)
        ensures
            final(self)@ == old(self)@.insert(key@, body@),
    {
        let ghost before = self.fixtures@;
        let ghost added = Fixture { key, body };
        self.fixtures.push(Fixture { key, body });
        proof {
            assert(self.fixtures@.drop_last() =~= before);
            assert(self.fixtures@.last() == added);
            assert(self@ =~= old(self)@.insert(key@, body@));
        }
    }

    /// The body stored under `key`, if any. The table is left as it is.
    pub fn lookup(&self, key: &K) -> (r: Option<String>)
        ensures
            match r {
                Some(body) => self@.contains_key(key@) && body@ == self@[key@],
                None => !self@.contains_key(key@),
            },
    {
        let mut i: usize = self.fixtures.len();
        assert(self.fixtures@.take(i as int) =~= self.fixtures@);
        while i > 0
            invariant
                i <= self.fixtures.len(),
                find(self.fixtures@, key@) == find(self.fixtures@.take(i as int), key@),
            decreases i,
        {
            i -= 1;
            let fixture = &self.fixtures[i];
            proof {
                let upto = self.fixtures@.take(i + 1);
                assert(upto.last() == self.fixtures@[i as int]);
                assert(upto.drop_last() =~= self.fixtures@.take(i as int));
            }
            if fixture.key.same_key(key) {
                return Some(fixture.body.clone());
            }
        }
        None
    }
}

} // verus!
