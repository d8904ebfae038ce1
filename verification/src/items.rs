//! A small store of named items, looked up by numeric identifier.
//!
//! Unlike tickets, items bring their identifiers with them, so a lookup
//! returns the first item whose identifier matches.

use vstd::prelude::*;

verus! {

/// A named item with a caller-chosen identifier.
#[derive(Debug)]
pub struct Item {
    pub id: u32,
    pub name: String,
}

impl Clone for Item {
    fn clone(&self) -> (r: Self)
        ensures
            r == *self,
    {
        Item { id: self.id, name: self.name.clone() }
    }
}

impl PartialEq for Item {
    fn eq(&self, other: &Item) -> (r: bool) {
        self.id == other.id && self.name == other.name
    }
}

impl vstd::std_specs::cmp::PartialEqSpecImpl for Item {
    open spec fn obeys_eq_spec() -> bool {
        true
    }

    open spec fn eq_spec(&self, other: &Item) -> bool {
        self.id == other.id && self.name@ == other.name@
    }
}

/// The first item of `items` whose identifier is `id`, if any.
pub open spec fn first_match(items: Seq<Item>, id: u32) -> Option<Item>
    decreases items.len(),
{
    if items.len() == 0 {
        None
    } else if items[0].id == id {
        Some(items[0])
    } else {
        first_match(items.drop_first(), id)
    }
}

/// An in-memory collection of items, in insertion order.
pub struct ItemStore {
    items: Vec<Item>,
}

impl View for ItemStore {
    type V = Seq<Item>;

    closed spec fn view(&self) -> Seq<Item> {
        self.items@
    }
}

impl ItemStore {
    /// An empty store.
    pub fn new() -> (s: Self)
        ensures
            s@ == Seq::<Item>::empty(),
    {
        ItemStore { items: Vec::new() }
    }

    /// Appends `item`; identifiers are not checked for uniqueness.
    pub fn add_item(&mut self, item: Item)
        ensures
            final(self)@ == old(self)@.push(item),
    {
        self.items.push(item);
    }

    /// A point-in-time clone of every item, in insertion order.
    pub fn list_items(&self) -> (r: Vec<Item>)
        ensures
            r@ == self@,
    {
        let mut listed: Vec<Item> = Vec::new();
        let mut k: usize = 0;
        while k < self.items.len()
            invariant
                0 <= k <= self@.len(),
                listed@.len() == k,
                forall|j: int| 0 <= j < k ==> listed@[j] == self@[j],
            decreases self@.len() - k,
        {
            listed.push(self.items[k].clone());
            k = k + 1;
        }
        proof {
            assert(listed@ =~= self@);
        }
        listed
    }

    /// The first item whose identifier is `id`, if the store holds one.
    pub fn get_item(&self, id: u32) -> (r: Option<&Item>)
        ensures
            match r {
                Some(item) => first_match(self@, id) == Some(*item),
                None => first_match(self@, id) is None,
            },
    {
        let mut k: usize = 0;
        while k < self.items.len()
            invariant
                0 <= k <= self@.len(),
                forall|j: int| 0 <= j < k ==> (#[trigger] self@[j]).id != id,
            decreases self@.len() - k,
        {
            if self.items[k].id == id {
                proof {
                    lemma_first_match_at(self@, id, k as int);
                }
                return Some(&self.items[k]);
            }
            k = k + 1;
        }
        proof {
            lemma_first_match_none(self@, id);
        }
        None
    }
}

/// If everything before position `k` misses and position `k` hits, the
/// first match is the item at `k`.
proof fn lemma_first_match_at(items: Seq<Item>, id: u32, k: int)
    requires
        0 <= k < items.len(),
        items[k].id == id,
        forall|j: int| 0 <= j < k ==> (#[trigger] items[j]).id != id,
    ensures
        first_match(items, id) == Some(items[k]),
    decreases k,
{
    if k > 0 {
        lemma_first_match_at(items.drop_first(), id, k - 1);
    }
}

/// If no position hits, there is no first match.
proof fn lemma_first_match_none(items: Seq<Item>, id: u32)
    requires
        forall|j: int| 0 <= j < items.len() ==> (#[trigger] items[j]).id != id,
    ensures
        first_match(items, id) is None,
    decreases items.len(),
{
    if items.len() > 0 {
        lemma_first_match_none(items.drop_first(), id);
    }
}

} // verus!
