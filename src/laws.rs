use vstd::prelude::*;
use crate::command::Verb;
use crate::game::{drop_post, go_post, look_lines, take_post, use_post, Game};
use crate::landscape::{
    catalog_table, exit_table, mountain_catalog, mountain_exits, mountain_items, CAVE_ENTRANCE,
    CAVE_INTERIOR,
};
use crate::session::{body, step_post};
use crate::text::{first_index, first_upto, lemma_first_upto, texts};
use crate::world::{
    canonical, catalog_ids, directions, exit_index, gives_light, items_replaced, named_upto, names, use_index,
    ItemInfo, Location, World,
};

verus! {

broadcast use vstd::seq_lib::group_to_multiset_ensures;

/// How many of the items in `v` carry the identifier `x`.
pub open spec fn count_in(v: Seq<String>, x: Seq<char>) -> nat {
    texts(v).to_multiset().count(x)
}

/// How many items with identifier `x` lie in the first `n` locations.
pub open spec fn placed_upto(locs: Seq<Location>, x: Seq<char>, n: int) -> nat
    decreases n,
{
    if n <= 0 {
        0
    } else {
        placed_upto(locs, x, n - 1) + count_in(locs[n - 1].items@, x)
    }
}

/// How many items with identifier `x` the session holds, in all the
/// locations and the inventory together.
pub open spec fn copies(g: Game, x: Seq<char>) -> nat {
    count_in(g.state.inventory@, x) + placed_upto(
        g.world.locations@,
        x,
        g.world.locations@.len() as int,
    )
}

/// Replacing the items of one location changes the count over the locations
/// by exactly the change in that location.
proof fn lemma_placed_replaced(
    before: World,
    after: World,
    at: int,
    items: Seq<Seq<char>>,
    x: Seq<char>,
    n: int,
)
    requires
        items_replaced(before, after, at, items),
        0 <= at < before.locations@.len(),
        0 <= n <= before.locations@.len(),
    ensures
        n <= at ==> placed_upto(after.locations@, x, n) == placed_upto(before.locations@, x, n),
        n > at ==> placed_upto(after.locations@, x, n) + count_in(
            before.locations@[at].items@,
            x,
        ) == placed_upto(before.locations@, x, n) + items.to_multiset().count(x),
    decreases n,
{
    if n > 0 {
        lemma_placed_replaced(before, after, at, items, x, n - 1);
    }
}

/// Taking an item moves it from the current location to the inventory: of
/// every identifier the session holds as many copies as before.
pub proof fn lemma_take_keeps_items(
    old: Game,
    t: Seq<char>,
    new: Game,
    out: Seq<Seq<char>>,
    x: Seq<char>,
)
    requires
        old.wf(),
        take_post(old, t, new, out),
    ensures
        copies(new, x) == copies(old, x),
{
    let c = canonical(old.world.catalog@, t);
    let items = texts(old.here().items@);
    let k = first_index(items, c);
    if k >= 0 {
        lemma_first_upto(items, c, items.len() as int);
        let at = old.state.current as int;
        lemma_placed_replaced(
            old.world,
            new.world,
            at,
            items.remove(k),
            x,
            old.world.locations@.len() as int,
        );
    }
}

/// Dropping an item moves it from the inventory to the current location: of
/// every identifier the session holds as many copies as before.
pub proof fn lemma_drop_keeps_items(
    old: Game,
    t: Seq<char>,
    new: Game,
    out: Seq<Seq<char>>,
    x: Seq<char>,
)
    requires
        old.wf(),
        drop_post(old, t, new, out),
    ensures
        copies(new, x) == copies(old, x),
{
    let c = canonical(old.world.catalog@, t);
    let carried = texts(old.state.inventory@);
    let k = first_index(carried, c);
    if k >= 0 {
        lemma_first_upto(carried, c, carried.len() as int);
        let at = old.state.current as int;
        lemma_placed_replaced(
            old.world,
            new.world,
            at,
            texts(old.here().items@).push(c),
            x,
            old.world.locations@.len() as int,
        );
    }
}

/// No command creates, duplicates or loses an item: after any turn the
/// session holds as many copies of every identifier as before, so an item
/// that was in exactly one place stays in exactly one place.
pub proof fn lemma_turn_keeps_items(
    old: Game,
    verb: Verb,
    object: Seq<char>,
    target: Seq<char>,
    new: Game,
    out: Seq<Seq<char>>,
    x: Seq<char>,
)
    requires
        old.wf(),
        step_post(old, verb, object, target, new, out),
    ensures
        copies(new, x) == copies(old, x),
{
    let b = body(out, new);
    match verb {
        Verb::Take => lemma_take_keeps_items(old, object, new, b, x),
        Verb::Drop => lemma_drop_keeps_items(old, object, new, b, x),
        Verb::Go => {
            assert(new.world == old.world);
        },
        Verb::Use => {
            assert(new.world == old.world);
        },
        _ => {},
    }
}

/// Using an item on a target a second time shows the same lines again and
/// leaves the session as the first use left it: the win is found once.
pub proof fn lemma_use_again(
    g0: Game,
    item: Seq<char>,
    target: Seq<char>,
    g1: Game,
    out1: Seq<Seq<char>>,
    g2: Game,
    out2: Seq<Seq<char>>,
)
    requires
        use_post(g0, item, target, g1, out1),
        use_post(g1, item, target, g2, out2),
    ensures
        g2 == g1,
        out2 == out1,
{
    let c = canonical(g0.world.catalog@, item);
    let k = use_index(g0.here(), c, target);
    if k >= 0 {
        assert(g1.here() == g0.here());
        assert(g2.state == g1.state);
    }
}

/// When the game starts, each of the three items lies in exactly one
/// place; with the law above, it stays in exactly one place.
pub proof fn lemma_fresh_items_once(g: Game)
    requires
        g.world.locations@.len() == 8,
        forall|i: int|
            0 <= i < 8 ==> texts(#[trigger] g.world.locations@[i].items@) == mountain_items()[i],
        g.state.inventory@.len() == 0,
    ensures
        copies(g, "dusty_key"@) == 1,
        copies(g, "sturdy_stick"@) == 1,
        copies(g, "crystal_shard"@) == 1,
{
    reveal_strlit("dusty_key");
    reveal_strlit("sturdy_stick");
    reveal_strlit("crystal_shard");
    assert(texts(g.state.inventory@) =~= Seq::<Seq<char>>::empty());
    let locs = g.world.locations@;
    assert(texts(locs[0].items@) == mountain_items()[0]);
    assert(texts(locs[1].items@) == mountain_items()[1]);
    assert(texts(locs[2].items@) == mountain_items()[2]);
    assert(texts(locs[3].items@) == mountain_items()[3]);
    assert(texts(locs[4].items@) == mountain_items()[4]);
    assert(texts(locs[5].items@) == mountain_items()[5]);
    assert(texts(locs[6].items@) == mountain_items()[6]);
    assert(texts(locs[7].items@) == mountain_items()[7]);
    assert("dusty_key"@.len() == 9);
    assert("sturdy_stick"@.len() == 12);
    assert("crystal_shard"@.len() == 13);
    assert("dusty_key"@ != "sturdy_stick"@);
    assert("dusty_key"@ != "crystal_shard"@);
    assert("sturdy_stick"@ != "crystal_shard"@);
    reveal_with_fuel(placed_upto, 9);
}

/// At the cave entrance of the mountain, `enter` without light is refused
/// and leaves the player where they are; with light it leads into the cave.
pub proof fn lemma_cave_needs_light(old: Game, new: Game, out: Seq<Seq<char>>)
    requires
        old.wf(),
        old.state.current == CAVE_ENTRANCE,
        exit_table(old.here()) == mountain_exits()[CAVE_ENTRANCE as int],
        go_post(old, "enter"@, new, out),
    ensures
        !old.state.has_light ==> new == old && out == seq![
            "It's too dark to enter the cave. You need a light source."@,
        ],
        old.state.has_light ==> new.state.current == CAVE_INTERIOR,
{
    reveal_strlit("west");
    reveal_strlit("enter");
    let here = old.here();
    assert(mountain_exits()[CAVE_ENTRANCE as int].len() == 2);
    assert(exit_table(here).len() == 2);
    assert(here.exits@.len() == 2);
    assert("west"@.len() == 4);
    assert("enter"@.len() == 5);
    assert(exit_table(here)[0] == mountain_exits()[CAVE_ENTRANCE as int][0]);
    assert(exit_table(here)[1] == mountain_exits()[CAVE_ENTRANCE as int][1]);
    assert(here.exits@[0].direction@ != "enter"@);
    assert(here.exits@[1].direction@ == "enter"@);
    reveal_with_fuel(first_upto, 3);
    assert(exit_index(here, "enter"@) == 1);
}

/// In the mountain's catalog the shard gives light, and so taking it lights
/// the way.
pub proof fn lemma_shard_gives_light(cat: Seq<ItemInfo>)
    requires
        catalog_table(cat) == mountain_catalog(),
    ensures
        gives_light(cat, "crystal_shard"@),
        !gives_light(cat, "dusty_key"@),
        !gives_light(cat, "sturdy_stick"@),
{
    reveal_strlit("dusty_key");
    reveal_strlit("sturdy_stick");
    reveal_strlit("crystal_shard");
    assert(mountain_catalog().len() == 3);
    assert(catalog_table(cat).len() == 3);
    assert(catalog_table(cat)[0] == mountain_catalog()[0]);
    assert(catalog_table(cat)[1] == mountain_catalog()[1]);
    assert(catalog_table(cat)[2] == mountain_catalog()[2]);
    assert("dusty_key"@.len() == 9);
    assert("sturdy_stick"@.len() == 12);
    assert("crystal_shard"@.len() == 13);
    assert(cat.len() == 3);
    let ids = catalog_ids(cat);
    assert(ids =~= seq!["dusty_key"@, "sturdy_stick"@, "crystal_shard"@]);
    reveal_with_fuel(first_upto, 4);
    assert(first_index(ids, "dusty_key"@) == 0);
    assert(first_index(ids, "sturdy_stick"@) == 1);
    assert(first_index(ids, "crystal_shard"@) == 2);
}

/// In the mountain's catalog `key`, `dusty key` and `dusty_key` all name
/// the one canonical item `dusty_key`.
pub proof fn lemma_key_synonyms(cat: Seq<ItemInfo>)
    requires
        catalog_table(cat) == mountain_catalog(),
    ensures
        canonical(cat, "key"@) == "dusty_key"@,
        canonical(cat, "dusty key"@) == "dusty_key"@,
        canonical(cat, "dusty_key"@) == "dusty_key"@,
{
    reveal_strlit("key");
    reveal_strlit("dusty key");
    reveal_strlit("dusty_key");
    reveal_strlit("stick");
    reveal_strlit("sturdy stick");
    reveal_strlit("crystal");
    reveal_strlit("shard");
    reveal_strlit("crystal shard");
    assert(mountain_catalog().len() == 3);
    assert(catalog_table(cat).len() == 3);
    assert(catalog_table(cat)[0] == mountain_catalog()[0]);
    assert(catalog_table(cat)[1] == mountain_catalog()[1]);
    assert(catalog_table(cat)[2] == mountain_catalog()[2]);
    let s0 = texts(cat[0].synonyms@);
    let s1 = texts(cat[1].synonyms@);
    let s2 = texts(cat[2].synonyms@);
    assert(s0[0] == "key"@);
    assert(s0[1] == "dusty key"@);
    assert(names(cat[0], "key"@));
    assert(names(cat[0], "dusty key"@));
    assert("dusty key"@[5] == ' ');
    assert("dusty_key"@[5] == '_');
    assert(!names(cat[0], "dusty_key"@));
    assert("dusty_key"@.len() == 9);
    assert("stick"@.len() == 5);
    assert("sturdy stick"@.len() == 12);
    assert("crystal"@.len() == 7);
    assert("shard"@.len() == 5);
    assert("crystal shard"@.len() == 13);
    assert(s1 == mountain_catalog()[1].1);
    assert(s2 == mountain_catalog()[2].1);
    assert forall|i: int| 0 <= i < s1.len() implies s1[i] != "dusty_key"@ by {
        assert(s1[i].len() != 9);
    }
    assert forall|i: int| 0 <= i < s2.len() implies s2[i] != "dusty_key"@ by {
        assert(s2[i].len() != 9);
    }
    assert(!names(cat[1], "dusty_key"@));
    assert(!names(cat[2], "dusty_key"@));
    reveal_with_fuel(named_upto, 4);
}

/// Movement follows declared exits only, one way: where the only dark exit
/// is `enter` at the cave entrance, and the move is not that one without
/// light, a declared exit leads to its own destination, shown and recorded
/// as visited, and any other direction leaves the session as it was.
pub proof fn lemma_moves_follow_exits(old: Game, d: Seq<char>, new: Game, out: Seq<Seq<char>>)
    requires
        old.wf(),
        go_post(old, d, new, out),
        forall|j: int|
            0 <= j < old.here().exits@.len() && (#[trigger] old.here().exits@[j]).needs_light
                ==> old.state.current == CAVE_ENTRANCE && old.here().exits@[j].direction@
                == "enter"@,
        !(d == "enter"@ && old.state.current == CAVE_ENTRANCE && !old.state.has_light),
    ensures
        ({
            let k = exit_index(old.here(), d);
            &&& k >= 0 ==> {
                let dest = old.here().exits@[k].destination;
                &&& old.here().exits@[k].direction@ == d
                &&& new.state.current == dest
                &&& new.state.visited@[dest as int]
                &&& out == look_lines(new.world, dest as int)
            }
            &&& k < 0 ==> new == old && out == seq!["You can't go that way."@]
        }),
{
    let here = old.here();
    let dirs = directions(here);
    lemma_first_upto(dirs, d, dirs.len() as int);
    let k = exit_index(here, d);
    if k >= 0 {
        assert(dirs[k] == here.exits@[k].direction@);
        assert(old.wf());
        assert(here.exits@[k].destination < old.state.visited@.len());
    }
}

} // verus!
