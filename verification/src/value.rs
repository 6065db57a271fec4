//! Values that a host hands over, and tables of them keyed by name.
//!
//! A table is a list of pairs and not a hash map: of a hash map vstd says
//! what it holds only where it has a model of how the key is hashed, and it
//! has none for text.

use vstd::prelude::*;

verus! {

/// A value of an argument map or of a site's settings. Only text is ever
/// looked into; a number, a list or any other value is `Other`.
#[derive(Clone, Debug, PartialEq, Eq)]
pub enum Value {
    Text(String),
    Other,
}

/// What a [`Value`] stands for.
pub enum ValueView {
    Text(Seq<char>),
    Other,
}

impl View for Value {
    type V = ValueView;

    open spec fn view(&self) -> ValueView {
        match self {
            Value::Text(s) => ValueView::Text(s@),
            Value::Other => ValueView::Other,
        }
    }
}

/// The value bound to `key` by the last entry of `entries` that names it.
pub open spec fn lookup(entries: Seq<(String, Value)>, key: Seq<char>) -> Option<ValueView>
    decreases entries.len(),
{
    if entries.len() == 0 {
        None
    } else if entries.last().0@ == key {
        Some(entries.last().1@)
    } else {
        lookup(entries.drop_last(), key)
    }
}

/// A mapping from names to values, such as the arguments of one call or the
/// free-form settings of a site. A name is bound to the value it was last
/// inserted with.
#[derive(Clone, Debug)]
pub struct Table {
    entries: Vec<(String, Value)>,
}

impl View for Table {
    type V = Map<Seq<char>, ValueView>;

    closed spec fn view(&self) -> Map<Seq<char>, ValueView> {
        Map::new(
            |key: Seq<char>| lookup(self.entries@, key) is Some,
            |key: Seq<char>| lookup(self.entries@, key)->0,
        )
    }
}

impl Table {
    /// The table that binds no name.
    pub fn new() -> (table: Table)
        ensures
            table@ == Map::<Seq<char>, ValueView>::empty(),
    {
        let table = Table { entries: Vec::new() };
        assert(table@ =~= Map::<Seq<char>, ValueView>::empty());
        table
    }

    /// Binds `key` to `value`, in place of what it was bound to before.
    pub fn insert(&mut self, key: String, value: Value)
        ensures
            final(self)@ == old(self)@.insert(key@, value@),
    {
        let ghost before = self.entries@;
        self.entries.push((key, value));
        proof {
            let after = self.entries@;
            assert(after.drop_last() =~= before);
            assert(after.last() == (key, value));
            assert forall|k: Seq<char>| lookup(after, k) == (if k == key@ {
                Some(value@)
            } else {
                lookup(before, k)
            }) by {}
            assert(final(self)@ =~= old(self)@.insert(key@, value@));
        }
    }

    /// The value that `key` is bound to, if it is bound.
    pub fn get(&self, key: &str) -> (found: Option<&Value>)
        ensures
            match found {
                Some(value) => self@.contains_key(key@) && self@[key@] == value@,
                None => !self@.contains_key(key@),
            },
    {
        let wanted = key.to_owned();
        let mut i: usize = self.entries.len();
        assert(self.entries@.take(i as int) =~= self.entries@);
        while i > 0
            invariant
                i <= self.entries.len(),
                wanted@ == key@,
                lookup(self.entries@, key@) == lookup(self.entries@.take(i as int), key@),
            decreases i,
        {
            proof {
                let head = self.entries@.take(i as int);
                assert(head.last() == self.entries@[i - 1]);
                assert(head.drop_last() =~= self.entries@.take(i - 1));
            }
            i = i - 1;
            if self.entries[i].0 == wanted {
                return Some(&self.entries[i].1);
            }
        }
        assert(self.entries@.take(0).len() == 0);
        None
    }
}

} // verus!
