use vstd::prelude::*;
use crate::text::{
    find_text, first_index, first_upto, joined, lemma_first_upto, owned, same_text, texts,
};

verus! {

/// A one-way exit: the token that takes it, where it leads, and whether the
/// passage is dark and so needs a light to pass.
pub struct Exit {
    pub direction: String,
    pub destination: usize,
    pub needs_light: bool,
}

/// What the player is told on examining an object of a location.
pub struct Remark {
    pub object: String,
    pub text: String,
}

/// What happens on using `item` on `target` in a location; `wins` marks the
/// use that finds the treasure.
pub struct UseRule {
    pub item: String,
    pub target: String,
    pub text: String,
    pub wins: bool,
}

/// A place in the world. Only `items` changes during play.
pub struct Location {
    pub key: String,
    pub name: String,
    pub description: String,
    pub exits: Vec<Exit>,
    pub items: Vec<String>,
    pub remarks: Vec<Remark>,
    pub uses: Vec<UseRule>,
}

/// What the world knows of an item: its canonical identifier, the words that
/// name it, how it is listed, how it reads when examined, and whether it
/// gives light.
pub struct ItemInfo {
    pub id: String,
    pub synonyms: Vec<String>,
    pub title: String,
    pub detail: String,
    pub light: bool,
}

/// The locations, by index, and the catalog of items.
pub struct World {
    pub locations: Vec<Location>,
    pub catalog: Vec<ItemInfo>,
}

/// Every exit of the locations leads to one of the first `n` of them.
pub open spec fn exits_within(locs: Seq<Location>, n: int) -> bool {
    forall|i: int, j: int|
        0 <= i < locs.len() && 0 <= j < locs[i].exits@.len() ==> locs[i].exits@[j].destination < n
}

/// The exit tokens of a location.
pub open spec fn directions(l: Location) -> Seq<Seq<char>> {
    l.exits@.map_values(|e: Exit| e.direction@)
}

/// The objects that a location has remarks on.
pub open spec fn objects(l: Location) -> Seq<Seq<char>> {
    l.remarks@.map_values(|r: Remark| r.object@)
}

/// The (item, target) pairs of a location's use rules.
pub open spec fn use_keys(l: Location) -> Seq<(Seq<char>, Seq<char>)> {
    l.uses@.map_values(|u: UseRule| (u.item@, u.target@))
}

/// The canonical identifiers of the catalog.
pub open spec fn catalog_ids(cat: Seq<ItemInfo>) -> Seq<Seq<char>> {
    cat.map_values(|e: ItemInfo| e.id@)
}

/// Whether `t` is one of the words that name entry `e`.
pub open spec fn names(e: ItemInfo, t: Seq<char>) -> bool {
    texts(e.synonyms@).contains(t)
}

/// The first entry below `n` that `t` names, or -1.
pub open spec fn named_upto(cat: Seq<ItemInfo>, t: Seq<char>, n: int) -> int
    decreases n,
{
    if n <= 0 {
        -1
    } else {
        let r = named_upto(cat, t, n - 1);
        if r >= 0 {
            r
        } else if names(cat[n - 1], t) {
            n - 1
        } else {
            -1
        }
    }
}

/// The canonical identifier for the word `t`: that of the first entry it
/// names, else `t` itself.
pub open spec fn canonical(cat: Seq<ItemInfo>, t: Seq<char>) -> Seq<char> {
    let e = named_upto(cat, t, cat.len() as int);
    if e >= 0 {
        cat[e].id@
    } else {
        t
    }
}

/// How an item is listed: its title, or its identifier where the catalog
/// does not know it.
pub open spec fn item_line(cat: Seq<ItemInfo>, id: Seq<char>) -> Seq<char> {
    let e = first_index(catalog_ids(cat), id);
    if e >= 0 {
        "- "@ + cat[e].title@
    } else {
        "- "@ + id
    }
}

/// How a carried item reads when examined.
pub open spec fn item_detail(cat: Seq<ItemInfo>, id: Seq<char>) -> Seq<char> {
    let e = first_index(catalog_ids(cat), id);
    if e >= 0 {
        cat[e].detail@
    } else {
        "You see nothing special about it."@
    }
}

/// Whether the item gives light.
pub open spec fn gives_light(cat: Seq<ItemInfo>, id: Seq<char>) -> bool {
    let e = first_index(catalog_ids(cat), id);
    e >= 0 && cat[e].light
}

impl World {
    /// Every exit leads to a location of the world.
    pub open spec fn wf(&self) -> bool {
        &&& self.locations@.len() > 0
        &&& exits_within(self.locations@, self.locations@.len() as int)
    }

    /// The canonical identifier for a word the player typed.
    pub fn normalize(&self, t: &str) -> (r: String)
        ensures
            r@ == canonical(self.catalog@, t@),
    {
        let ghost cat = self.catalog@;
        let mut i: usize = 0;
        while i < self.catalog.len()
            invariant
                cat == self.catalog@,
                i <= cat.len(),
                named_upto(cat, t@, i as int) == -1,
            decreases cat.len() - i,
        {
            let e = &self.catalog[i];
            let mut j: usize = 0;
            while j < e.synonyms.len()
                invariant
                    cat == self.catalog@,
                    i < cat.len(),
                    *e == cat[i as int],
                    named_upto(cat, t@, i as int) == -1,
                    j <= e.synonyms@.len(),
                    forall|m: int| 0 <= m < j ==> e.synonyms@[m]@ != t@,
                decreases e.synonyms@.len() - j,
            {
                if same_text(t, &e.synonyms[j]) {
                    proof {
                        assert(texts(e.synonyms@)[j as int] == t@);
                        assert(names(cat[i as int], t@));
                        lemma_named_upto_stops(cat, t@, cat.len() as int, i as int);
                    }
                    return e.id.clone();
                }
                j = j + 1;
            }
            proof {
                assert forall|m: int| 0 <= m < texts(e.synonyms@).len() implies texts(
                    e.synonyms@,
                )[m] != t@ by {}
                assert(!names(cat[i as int], t@));
            }
            i = i + 1;
        }
        String::from_str(t)
    }

    /// The catalog entry of a canonical identifier, if it has one.
    pub fn entry_of(&self, id: &String) -> (r: Option<usize>)
        ensures
            match r {
                Some(e) => e == first_index(catalog_ids(self.catalog@), id@) && e
                    < self.catalog@.len(),
                None => first_index(catalog_ids(self.catalog@), id@) == -1,
            },
    {
        let ghost keys = catalog_ids(self.catalog@);
        let mut i: usize = 0;
        while i < self.catalog.len()
            invariant
                keys == catalog_ids(self.catalog@),
                i <= self.catalog@.len(),
                first_upto(keys, id@, i as int) == -1,
            decreases self.catalog@.len() - i,
        {
            if self.catalog[i].id == *id {
                proof {
                    lemma_first_upto(keys, id@, keys.len() as int);
                    lemma_first_upto(keys, id@, i as int + 1);
                }
                return Some(i);
            }
            i = i + 1;
        }
        None
    }

    /// How an item is listed.
    pub fn item_line(&self, id: &String) -> (r: String)
        ensures
            r@ == item_line(self.catalog@, id@),
    {
        match self.entry_of(id) {
            Some(e) => joined("- ", self.catalog[e].title.as_str()),
            None => joined("- ", id.as_str()),
        }
    }

    /// How a carried item reads when examined.
    pub fn item_detail(&self, id: &String) -> (r: String)
        ensures
            r@ == item_detail(self.catalog@, id@),
    {
        match self.entry_of(id) {
            Some(e) => self.catalog[e].detail.clone(),
            None => owned("You see nothing special about it."),
        }
    }

    /// Whether the item gives light.
    pub fn gives_light(&self, id: &String) -> (r: bool)
        ensures
            r == gives_light(self.catalog@, id@),
    {
        match self.entry_of(id) {
            Some(e) => self.catalog[e].light,
            None => false,
        }
    }
}

/// Once an entry below `n` is named, `named_upto` stops at the first one.
proof fn lemma_named_upto_stops(cat: Seq<ItemInfo>, t: Seq<char>, n: int, i: int)
    requires
        0 <= i < n,
        names(cat[i], t),
        named_upto(cat, t, i) == -1,
    ensures
        named_upto(cat, t, n) == i,
    decreases n,
{
    if n > i + 1 {
        lemma_named_upto_stops(cat, t, n - 1, i);
    }
}

} // verus!

verus! {

/// Two locations agree in everything but the items lying there.
pub open spec fn same_but_items(a: Location, b: Location) -> bool {
    &&& a.key == b.key
    &&& a.name == b.name
    &&& a.description == b.description
    &&& a.exits == b.exits
    &&& a.remarks == b.remarks
    &&& a.uses == b.uses
}

/// `after` is `before` with the items of location `at` replaced by ones
/// whose identifiers are `items`.
pub open spec fn items_replaced(before: World, after: World, at: int, items: Seq<Seq<char>>) -> bool {
    &&& after.catalog == before.catalog
    &&& after.locations@.len() == before.locations@.len()
    &&& forall|i: int|
        0 <= i < before.locations@.len() && i != at ==> after.locations@[i]
            == before.locations@[i]
    &&& same_but_items(before.locations@[at], after.locations@[at])
    &&& texts(after.locations@[at].items@) == items
}

/// The first exit of `l` taken by `direction`, or -1.
pub open spec fn exit_index(l: Location, direction: Seq<char>) -> int {
    first_index(directions(l), direction)
}

/// The first remark of `l` on `object`, or -1.
pub open spec fn remark_index(l: Location, object: Seq<char>) -> int {
    first_index(objects(l), object)
}

/// The first use rule of `l` for `item` on `target`, or -1.
pub open spec fn use_index(l: Location, item: Seq<char>, target: Seq<char>) -> int {
    first_index(use_keys(l), (item, target))
}

impl Location {
    /// The first exit taken by `direction`.
    pub fn find_exit(&self, direction: &str) -> (r: Option<usize>)
        ensures
            match r {
                Some(i) => i == exit_index(*self, direction@) && i < self.exits@.len(),
                None => exit_index(*self, direction@) == -1,
            },
    {
        let ghost keys = directions(*self);
        let mut i: usize = 0;
        while i < self.exits.len()
            invariant
                keys == directions(*self),
                i <= self.exits@.len(),
                first_upto(keys, direction@, i as int) == -1,
            decreases self.exits@.len() - i,
        {
            if same_text(direction, &self.exits[i].direction) {
                proof {
                    assert(keys[i as int] == direction@);
                    lemma_first_upto(keys, direction@, keys.len() as int);
                    lemma_first_upto(keys, direction@, i as int);
                }
                return Some(i);
            }
            i = i + 1;
        }
        None
    }

    /// The first remark on `object`.
    pub fn find_remark(&self, object: &str) -> (r: Option<usize>)
        ensures
            match r {
                Some(i) => i == remark_index(*self, object@) && i < self.remarks@.len(),
                None => remark_index(*self, object@) == -1,
            },
    {
        let ghost keys = objects(*self);
        let mut i: usize = 0;
        while i < self.remarks.len()
            invariant
                keys == objects(*self),
                i <= self.remarks@.len(),
                first_upto(keys, object@, i as int) == -1,
            decreases self.remarks@.len() - i,
        {
            if same_text(object, &self.remarks[i].object) {
                proof {
                    assert(keys[i as int] == object@);
                    lemma_first_upto(keys, object@, keys.len() as int);
                    lemma_first_upto(keys, object@, i as int);
                }
                return Some(i);
            }
            i = i + 1;
        }
        None
    }

    /// The first use rule for `item` on `target`.
    pub fn find_use(&self, item: &String, target: &str) -> (r: Option<usize>)
        ensures
            match r {
                Some(i) => i == use_index(*self, item@, target@) && i < self.uses@.len(),
                None => use_index(*self, item@, target@) == -1,
            },
    {
        let ghost keys = use_keys(*self);
        let ghost k = (item@, target@);
        let mut i: usize = 0;
        while i < self.uses.len()
            invariant
                keys == use_keys(*self),
                k == (item@, target@),
                i <= self.uses@.len(),
                first_upto(keys, k, i as int) == -1,
            decreases self.uses@.len() - i,
        {
            if self.uses[i].item == *item && same_text(target, &self.uses[i].target) {
                proof {
                    assert(keys[i as int] == k);
                    lemma_first_upto(keys, k, keys.len() as int);
                    lemma_first_upto(keys, k, i as int);
                }
                return Some(i);
            }
            proof {
                assert(keys[i as int] != k);
            }
            i = i + 1;
        }
        None
    }
}

impl World {
    /// Takes the first copy of `id` out of location `at`; false where none
    /// lies there, and then nothing changes.
    pub fn remove_item(&mut self, at: usize, id: &String) -> (r: bool)
        requires
            at < old(self).locations@.len(),
        ensures
            ({
                let items = old(self).locations@[at as int].items@;
                let k = first_index(texts(items), id@);
                &&& r == (k >= 0)
                &&& r ==> items_replaced(*old(self), *final(self), at as int, texts(items).remove(k))
                &&& !r ==> *final(self) == *old(self)
            }),
    {
        let k = find_text(&self.locations[at].items, id.as_str());
        match k {
            Some(k) => {
                let ghost before = *self;
                let mut loc = self.locations.remove(at);
                loc.items.remove(k);
                self.locations.insert(at, loc);
                proof {
                    assert(texts(self.locations@[at as int].items@) =~= texts(
                        before.locations@[at as int].items@,
                    ).remove(k as int));
                    assert forall|i: int|
                        0 <= i < before.locations@.len() && i != at implies self.locations@[i]
                        == before.locations@[i] by {
                        if i < at {
                        } else {
                        }
                    }
                }
                true
            },
            None => false,
        }
    }

    /// Lays `id` down in location `at`, after the items already there.
    pub fn add_item(&mut self, at: usize, id: String)
        requires
            at < old(self).locations@.len(),
        ensures
            items_replaced(
                *old(self),
                *final(self),
                at as int,
                texts(old(self).locations@[at as int].items@).push(id@),
            ),
    {
        let ghost before = *self;
        let mut loc = self.locations.remove(at);
        loc.items.push(id);
        self.locations.insert(at, loc);
        proof {
            assert(texts(self.locations@[at as int].items@) =~= texts(
                before.locations@[at as int].items@,
            ).push(id@));
            assert forall|i: int|
                0 <= i < before.locations@.len() && i != at implies self.locations@[i]
                == before.locations@[i] by {
                if i < at {
                } else {
                }
            }
        }
    }
}

/// Moving items about keeps every exit within the world.
pub proof fn lemma_items_replaced_wf(before: World, after: World, at: int, items: Seq<Seq<char>>)
    requires
        before.wf(),
        0 <= at < before.locations@.len(),
        items_replaced(before, after, at, items),
    ensures
        after.wf(),
{
    assert forall|i: int, j: int|
        0 <= i < after.locations@.len() && 0 <= j < after.locations@[i].exits@.len() implies
        after.locations@[i].exits@[j].destination < after.locations@.len() by {
        if i != at {
            assert(after.locations@[i] == before.locations@[i]);
        } else {
            assert(after.locations@[i].exits == before.locations@[i].exits);
        }
    }
}

} // verus!
