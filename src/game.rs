use vstd::prelude::*;
use crate::landscape::{
    catalog_table, catalog_texts, chest_text, exit_table, mountain, mountain_catalog,
    mountain_descriptions, mountain_exits, mountain_item_texts, mountain_items, mountain_keys,
    mountain_names, mountain_remarks, remark_table, CABIN, CAVE_ENTRANCE, SHRINE,
};
use crate::text::{find_text, first_index, joined, joined3, lemma_first_upto, owned, texts};
use crate::world::{
    canonical, directions, exit_index, gives_light, item_detail, item_line, items_replaced,
    lemma_items_replaced_wf, remark_index, use_index, use_keys, Location, World,
};

verus! {

/// Where the player stands, what they carry, which locations they have
/// entered, and the progress flags.
pub struct PlayerState {
    pub current: usize,
    pub inventory: Vec<String>,
    pub visited: Vec<bool>,
    pub has_light: bool,
    pub found_treasure: bool,
}

/// A session: the world and the player in it.
pub struct Game {
    pub world: World,
    pub state: PlayerState,
}


/// What `look` shows at location `at`: the name and description, the items
/// lying there if any, and the exit tokens in their order.
pub open spec fn look_lines(w: World, at: int) -> Seq<Seq<char>> {
    let l = w.locations@[at];
    let head = seq![""@, "=== "@ + l.name@ + " ==="@, l.description@];
    let items = if l.items@.len() == 0 {
        Seq::<Seq<char>>::empty()
    } else {
        seq![""@, "You can see:"@] + l.items@.map_values(|s: String| item_line(w.catalog@, s@))
    };
    head + items + seq![""@, "Exits:"@] + directions(l).map_values(|d: Seq<char>| "- "@ + d)
}

impl Game {
    /// The player stands in a location of a well-formed world, and the
    /// record of visits has one entry per location.
    pub open spec fn wf(&self) -> bool {
        &&& self.world.wf()
        &&& self.state.current < self.world.locations@.len()
        &&& self.state.visited@.len() == self.world.locations@.len()
    }

    /// The location the player stands in.
    pub open spec fn here(&self) -> Location {
        self.world.locations@[self.state.current as int]
    }

    /// A fresh game in the mountain world: the player in the cabin, carrying
    /// nothing, with no light and no treasure.
    pub fn new() -> (g: Game)
        ensures
            g.wf(),
            g.world.locations@.len() == 8,
            g.state.current == CABIN,
            g.here().key@ == "cabin"@,
            g.state.inventory@.len() == 0,
            !g.state.has_light,
            !g.state.found_treasure,
            forall|i: int| 0 <= i < 8 ==> #[trigger] g.world.locations@[i].key@ == mountain_keys()[i],
            forall|i: int|
                0 <= i < 8 ==> texts(#[trigger] g.world.locations@[i].items@) == mountain_items()[i],
            forall|i: int| 0 <= i < 8 ==> !#[trigger] g.state.visited@[i],
            forall|i: int| 0 <= i < 8 ==> exit_table(#[trigger] g.world.locations@[i]) == mountain_exits()[i],
            catalog_table(g.world.catalog@) == mountain_catalog(),
            use_keys(g.world.locations@[SHRINE as int]) == seq![("dusty_key"@, "chest"@)],
            g.world.locations@[SHRINE as int].uses@[0].wins,
            forall|i: int| 0 <= i < 8 && i != SHRINE ==> (#[trigger] g.world.locations@[i]).uses@.len() == 0,
            forall|i: int| 0 <= i < 8 ==> #[trigger] g.world.locations@[i].name@ == mountain_names()[i],
            forall|i: int|
                0 <= i < 8 ==> #[trigger] g.world.locations@[i].description@
                    == mountain_descriptions()[i],
            forall|i: int|
                0 <= i < 8 ==> remark_table(#[trigger] g.world.locations@[i]) == mountain_remarks()[i],
            catalog_texts(g.world.catalog@) == mountain_item_texts(),
            g.world.locations@[SHRINE as int].uses@[0].text@ == chest_text(),
            forall|i: int, j: int|
                0 <= i < 8 && 0 <= j < g.world.locations@[i].exits@.len()
                    && (#[trigger] g.world.locations@[i].exits@[j]).needs_light ==> i == CAVE_ENTRANCE
                    && g.world.locations@[i].exits@[j].direction@ == "enter"@,
    {
        let world = mountain();
        let mut visited: Vec<bool> = Vec::new();
        let mut i: usize = 0;
        while i < world.locations.len()
            invariant
                i <= world.locations@.len(),
                visited@.len() == i,
                forall|j: int| 0 <= j < i ==> !visited@[j],
            decreases world.locations@.len() - i,
        {
            visited.push(false);
            i = i + 1;
        }
        let state = PlayerState {
            current: CABIN,
            inventory: Vec::new(),
            visited,
            has_light: false,
            found_treasure: false,
        };
        Game { world, state }
    }

    /// The name, description, items and exits of the current location.
    pub fn look(&self) -> (r: Vec<String>)
        requires
            self.wf(),
        ensures
            texts(r@) == look_lines(self.world, self.state.current as int),
    {
        let l = &self.world.locations[self.state.current];
        let ghost cat = self.world.catalog@;
        let mut out: Vec<String> = Vec::new();
        out.push(owned(""));
        out.push(joined3("=== ", l.name.as_str(), " ==="));
        out.push(l.description.clone());
        let ghost head = texts(out@);
        if l.items.len() > 0 {
            out.push(owned(""));
            out.push(owned("You can see:"));
            let ghost start = texts(out@);
            let mut i: usize = 0;
            while i < l.items.len()
                invariant
                    cat == self.world.catalog@,
                    i <= l.items@.len(),
                    texts(out@) == start + l.items@.take(i as int).map_values(
                        |s: String| item_line(cat, s@),
                    ),
                decreases l.items@.len() - i,
            {
                let line = self.world.item_line(&l.items[i]);
                let ghost prev = texts(out@);
                out.push(line);
                proof {
                    assert(texts(out@) =~= prev.push(item_line(cat, l.items@[i as int]@)));
                    assert(l.items@.take(i as int + 1) =~= l.items@.take(i as int).push(
                        l.items@[i as int],
                    ));
                    assert(texts(out@) =~= start + l.items@.take(i as int + 1).map_values(
                        |s: String| item_line(cat, s@),
                    ));
                }
                i = i + 1;
            }
            proof {
                assert(l.items@.take(i as int) =~= l.items@);
                assert(texts(out@) =~= head + (seq![""@, "You can see:"@] + l.items@.map_values(
                    |s: String| item_line(cat, s@),
                )));
            }
        }
        let ghost items_part = texts(out@).subrange(3, texts(out@).len() as int);
        proof {
            assert(texts(out@) =~= head + items_part);
        }
        out.push(owned(""));
        out.push(owned("Exits:"));
        proof {
            assert(texts(out@) =~= head + items_part + seq![""@, "Exits:"@]);
        }
        let ghost mid = texts(out@);
        let mut j: usize = 0;
        while j < l.exits.len()
            invariant
                j <= l.exits@.len(),
                texts(out@) == mid + directions(*l).take(j as int).map_values(
                    |d: Seq<char>| "- "@ + d,
                ),
            decreases l.exits@.len() - j,
        {
            let ghost prev = texts(out@);
            out.push(joined("- ", l.exits[j].direction.as_str()));
            proof {
                assert(texts(out@) =~= prev.push("- "@ + directions(*l)[j as int]));
                assert(directions(*l).take(j as int + 1) =~= directions(*l).take(j as int).push(
                    directions(*l)[j as int],
                ));
                assert(texts(out@) =~= mid + directions(*l).take(j as int + 1).map_values(
                    |d: Seq<char>| "- "@ + d,
                ));
            }
            j = j + 1;
        }
        proof {
            assert(directions(*l).take(j as int) =~= directions(*l));
            assert(texts(out@) =~= look_lines(self.world, self.state.current as int));
        }
        out
    }
}


/// A single line of output.
fn line(s: &str) -> (r: Vec<String>)
    ensures
        texts(r@) == seq![s@],
{
    let mut r: Vec<String> = Vec::new();
    r.push(owned(s));
    proof {
        assert(texts(r@) =~= seq![s@]);
    }
    r
}

/// The given text as the single line of output.
fn say(s: String) -> (r: Vec<String>)
    ensures
        texts(r@) == seq![s@],
{
    let mut r: Vec<String> = Vec::new();
    r.push(s);
    proof {
        assert(texts(r@) =~= seq![s@]);
    }
    r
}

/// Two sessions agree on everything but the player's location and visits.
pub open spec fn same_but_place(a: Game, b: Game) -> bool {
    &&& a.world == b.world
    &&& a.state.inventory == b.state.inventory
    &&& a.state.has_light == b.state.has_light
    &&& a.state.found_treasure == b.state.found_treasure
}

/// What `go` does: a dark exit without light is refused; a declared exit is
/// taken, recorded as visited, and looked around in; any other token is
/// refused.
pub open spec fn go_post(old: Game, d: Seq<char>, new: Game, out: Seq<Seq<char>>) -> bool {
    let here = old.here();
    let k = exit_index(here, d);
    if k >= 0 && here.exits@[k].needs_light && !old.state.has_light {
        &&& new == old
        &&& out == seq!["It's too dark to enter the cave. You need a light source."@]
    } else if k >= 0 {
        let dest = here.exits@[k].destination;
        &&& same_but_place(old, new)
        &&& new.state.current == dest
        &&& new.state.visited@ == old.state.visited@.update(dest as int, true)
        &&& out == look_lines(new.world, dest as int)
    } else {
        &&& new == old
        &&& out == seq!["You can't go that way."@]
    }
}

/// What `take` does with the word `t`: the first copy of its canonical item
/// in the current location moves to the end of the inventory, lighting the
/// way if it gives light; else nothing changes.
pub open spec fn take_post(old: Game, t: Seq<char>, new: Game, out: Seq<Seq<char>>) -> bool {
    let cat = old.world.catalog@;
    let c = canonical(cat, t);
    let items = texts(old.here().items@);
    let k = first_index(items, c);
    if k >= 0 {
        &&& items_replaced(old.world, new.world, old.state.current as int, items.remove(k))
        &&& texts(new.state.inventory@) == texts(old.state.inventory@).push(c)
        &&& new.state.current == old.state.current
        &&& new.state.visited == old.state.visited
        &&& new.state.found_treasure == old.state.found_treasure
        &&& new.state.has_light == (old.state.has_light || gives_light(cat, c))
        &&& out == if gives_light(cat, c) {
            seq![
                "You pick up the crystal shard. It glows brightly in your hand, providing enough light to see by!"@,
            ]
        } else {
            seq!["You take the "@ + t + "."@]
        }
    } else {
        &&& new == old
        &&& out == seq!["You don't see that here."@]
    }
}

/// What `drop` does with the word `t`: the first carried copy of its
/// canonical item moves to the end of the current location's items, taking
/// its light with it; else nothing changes.
pub open spec fn drop_post(old: Game, t: Seq<char>, new: Game, out: Seq<Seq<char>>) -> bool {
    let cat = old.world.catalog@;
    let c = canonical(cat, t);
    let carried = texts(old.state.inventory@);
    let k = first_index(carried, c);
    if k >= 0 {
        &&& items_replaced(
            old.world,
            new.world,
            old.state.current as int,
            texts(old.here().items@).push(c),
        )
        &&& texts(new.state.inventory@) == carried.remove(k)
        &&& new.state.current == old.state.current
        &&& new.state.visited == old.state.visited
        &&& new.state.found_treasure == old.state.found_treasure
        &&& new.state.has_light == (old.state.has_light && !gives_light(cat, c))
        &&& out == seq!["You drop the "@ + t + "."@]
    } else {
        &&& new == old
        &&& out == seq!["You don't have that."@]
    }
}

/// What `examine` shows for `object`: the current location's remark on it,
/// else the description of the carried item it names, else a refusal.
pub open spec fn examine_lines(g: Game, object: Seq<char>) -> Seq<Seq<char>> {
    let here = g.here();
    let k = remark_index(here, object);
    let c = canonical(g.world.catalog@, object);
    if k >= 0 {
        seq![here.remarks@[k].text@]
    } else if texts(g.state.inventory@).contains(c) {
        seq![item_detail(g.world.catalog@, c)]
    } else {
        seq!["You don't see that here."@]
    }
}

/// What `use_item` does: the current location's rule for the canonical
/// item on the literal target answers, and the winning rule also finds the
/// treasure; without a rule, the player is told they lack the item or that
/// it does not work there.
pub open spec fn use_post(
    old: Game,
    item: Seq<char>,
    target: Seq<char>,
    new: Game,
    out: Seq<Seq<char>>,
) -> bool {
    let c = canonical(old.world.catalog@, item);
    let here = old.here();
    let k = use_index(here, c, target);
    if k >= 0 {
        let u = here.uses@[k];
        &&& new.world == old.world
        &&& new.state.current == old.state.current
        &&& new.state.visited == old.state.visited
        &&& new.state.inventory == old.state.inventory
        &&& new.state.has_light == old.state.has_light
        &&& new.state.found_treasure == (old.state.found_treasure || u.wins)
        &&& out == if u.wins {
            seq![u.text@, ""@, "Congratulations! You've completed the adventure!"@]
        } else {
            seq![u.text@]
        }
    } else if !texts(old.state.inventory@).contains(c) {
        &&& new == old
        &&& out == seq!["You don't have the "@ + item + "."@]
    } else {
        &&& new == old
        &&& out == seq!["You can't use the "@ + item + " on that."@]
    }
}

/// What `inventory` shows: each carried item as `look` lists it, or that
/// nothing is carried.
pub open spec fn inventory_lines(g: Game) -> Seq<Seq<char>> {
    if g.state.inventory@.len() == 0 {
        seq!["Your inventory is empty."@]
    } else {
        seq!["Inventory:"@] + g.state.inventory@.map_values(
            |s: String| item_line(g.world.catalog@, s@),
        )
    }
}

impl Game {
    /// Moves through the exit that `direction` names, unless it is dark and
    /// the player has no light.
    pub fn go(&mut self, direction: &str) -> (r: Vec<String>)
        requires
            old(self).wf(),
        ensures
            final(self).wf(),
            go_post(*old(self), direction@, *final(self), texts(r@)),
            final(self).state.current != old(self).state.current ==> exists|j: int|
                0 <= j < old(self).here().exits@.len() && #[trigger] old(
                    self,
                ).here().exits@[j].direction@ == direction@ && old(self).here().exits@[j].destination
                    == final(self).state.current,
    {
        let cur = self.state.current;
        match self.world.locations[cur].find_exit(direction) {
            Some(k) => {
                let needs_light = self.world.locations[cur].exits[k].needs_light;
                let dest = self.world.locations[cur].exits[k].destination;
                proof {
                    let dirs = directions(self.here());
                    assert(dirs[k as int] == self.here().exits@[k as int].direction@);
                    lemma_first_upto(dirs, direction@, dirs.len() as int);
                }
                if needs_light && !self.state.has_light {
                    return line("It's too dark to enter the cave. You need a light source.");
                }
                self.state.current = dest;
                self.state.visited.set(dest, true);
                self.look()
            },
            None => line("You can't go that way."),
        }
    }

    /// Picks up the item that `item` names from the current location.
    pub fn take(&mut self, item: &str) -> (r: Vec<String>)
        requires
            old(self).wf(),
        ensures
            final(self).wf(),
            take_post(*old(self), item@, *final(self), texts(r@)),
    {
        let c = self.world.normalize(item);
        let cur = self.state.current;
        let ghost before = *self;
        if self.world.remove_item(cur, &c) {
            proof {
                lemma_items_replaced_wf(
                    before.world,
                    self.world,
                    cur as int,
                    texts(before.here().items@).remove(first_index(texts(before.here().items@), c@)),
                );
            }
            let light = self.world.gives_light(&c);
            let ghost cv = c@;
            self.state.inventory.push(c);
            proof {
                assert(texts(self.state.inventory@) =~= texts(before.state.inventory@).push(cv));
            }
            if light {
                self.state.has_light = true;
                line(
                    "You pick up the crystal shard. It glows brightly in your hand, providing enough light to see by!",
                )
            } else {
                say(joined3("You take the ", item, "."))
            }
        } else {
            line("You don't see that here.")
        }
    }

    /// Puts down, in the current location, the carried item that `item`
    /// names.
    pub fn drop(&mut self, item: &str) -> (r: Vec<String>)
        requires
            old(self).wf(),
        ensures
            final(self).wf(),
            drop_post(*old(self), item@, *final(self), texts(r@)),
    {
        let c = self.world.normalize(item);
        let cur = self.state.current;
        let ghost before = *self;
        match find_text(&self.state.inventory, c.as_str()) {
            Some(k) => {
                self.state.inventory.remove(k);
                proof {
                    assert(texts(self.state.inventory@) =~= texts(before.state.inventory@).remove(
                        k as int,
                    ));
                }
                let light = self.world.gives_light(&c);
                let ghost cv = c@;
                self.world.add_item(cur, c);
                proof {
                    lemma_items_replaced_wf(
                        before.world,
                        self.world,
                        cur as int,
                        texts(before.here().items@).push(cv),
                    );
                }
                if light {
                    self.state.has_light = false;
                }
                say(joined3("You drop the ", item, "."))
            },
            None => line("You don't have that."),
        }
    }

    /// Looks closely at an object of the current location or a carried item.
    pub fn examine(&self, object: &str) -> (r: Vec<String>)
        requires
            self.wf(),
        ensures
            texts(r@) == examine_lines(*self, object@),
    {
        let l = &self.world.locations[self.state.current];
        match l.find_remark(object) {
            Some(k) => say(l.remarks[k].text.clone()),
            None => {
                let c = self.world.normalize(object);
                match find_text(&self.state.inventory, c.as_str()) {
                    Some(_) => {
                        proof {
                            lemma_first_upto(
                                texts(self.state.inventory@),
                                c@,
                                self.state.inventory@.len() as int,
                            );
                        }
                        say(self.world.item_detail(&c))
                    },
                    None => {
                        proof {
                            lemma_first_upto(
                                texts(self.state.inventory@),
                                c@,
                                self.state.inventory@.len() as int,
                            );
                        }
                        line("You don't see that here.")
                    },
                }
            },
        }
    }

    /// Uses the item that `item` names on `target`.
    pub fn use_item(&mut self, item: &str, target: &str) -> (r: Vec<String>)
        requires
            old(self).wf(),
        ensures
            final(self).wf(),
            use_post(*old(self), item@, target@, *final(self), texts(r@)),
    {
        let c = self.world.normalize(item);
        let l = &self.world.locations[self.state.current];
        match l.find_use(&c, target) {
            Some(k) => {
                let text = l.uses[k].text.clone();
                if l.uses[k].wins {
                    self.state.found_treasure = true;
                    let mut r: Vec<String> = Vec::new();
                    r.push(text);
                    r.push(owned(""));
                    r.push(owned("Congratulations! You've completed the adventure!"));
                    proof {
                        assert(texts(r@) =~= seq![
                            text@,
                            ""@,
                            "Congratulations! You've completed the adventure!"@,
                        ]);
                    }
                    r
                } else {
                    say(text)
                }
            },
            None => {
                let carried = find_text(&self.state.inventory, c.as_str());
                proof {
                    lemma_first_upto(
                        texts(self.state.inventory@),
                        c@,
                        self.state.inventory@.len() as int,
                    );
                }
                match carried {
                    None => say(joined3("You don't have the ", item, ".")),
                    Some(_) => say(joined3("You can't use the ", item, " on that.")),
                }
            },
        }
    }

    /// The carried items, listed as `look` lists them.
    pub fn inventory(&self) -> (r: Vec<String>)
        requires
            self.wf(),
        ensures
            texts(r@) == inventory_lines(*self),
    {
        let inv = &self.state.inventory;
        if inv.len() == 0 {
            return line("Your inventory is empty.");
        }
        let ghost cat = self.world.catalog@;
        let mut out = line("Inventory:");
        let mut i: usize = 0;
        while i < inv.len()
            invariant
                cat == self.world.catalog@,
                i <= inv@.len(),
                texts(out@) == seq!["Inventory:"@] + inv@.take(i as int).map_values(
                    |s: String| item_line(cat, s@),
                ),
            decreases inv@.len() - i,
        {
            let ghost prev = texts(out@);
            out.push(self.world.item_line(&inv[i]));
            proof {
                assert(texts(out@) =~= prev.push(item_line(cat, inv@[i as int]@)));
                assert(inv@.take(i as int + 1) =~= inv@.take(i as int).push(inv@[i as int]));
                assert(texts(out@) =~= seq!["Inventory:"@] + inv@.take(i as int + 1).map_values(
                    |s: String| item_line(cat, s@),
                ));
            }
            i = i + 1;
        }
        proof {
            assert(inv@.take(i as int) =~= inv@);
        }
        out
    }
}

} // verus!
