use vstd::prelude::*;
use crate::text::{owned, texts};
use crate::world::{
    exits_within, use_keys, Exit, ItemInfo, Location, Remark, UseRule, World,
};

verus! {

pub const CABIN: usize = 0;
pub const FOREST_PATH: usize = 1;
pub const RIVER_CROSSING: usize = 2;
pub const BRIDGE: usize = 3;
pub const MOUNTAIN_TRAIL: usize = 4;
pub const SHRINE: usize = 5;
pub const CAVE_ENTRANCE: usize = 6;
pub const CAVE_INTERIOR: usize = 7;

/// The keys of the mountain's locations, by index.
pub open spec fn mountain_keys() -> Seq<Seq<char>> {
    seq![
        "cabin"@,
        "forest_path"@,
        "river_crossing"@,
        "bridge"@,
        "mountain_trail"@,
        "shrine"@,
        "cave_entrance"@,
        "cave_interior"@,
    ]
}

/// The items that lie in each location when the game starts.
pub open spec fn mountain_items() -> Seq<Seq<Seq<char>>> {
    seq![
        seq!["dusty_key"@],
        seq![],
        seq!["sturdy_stick"@],
        seq![],
        seq![],
        seq![],
        seq![],
        seq!["crystal_shard"@],
    ]
}

/// The exits of a location as (token, destination, needs light).
pub open spec fn exit_table(l: Location) -> Seq<(Seq<char>, usize, bool)> {
    l.exits@.map_values(|e: Exit| (e.direction@, e.destination, e.needs_light))
}

/// The exits of each of the mountain's locations, in their order.
pub open spec fn mountain_exits() -> Seq<Seq<(Seq<char>, usize, bool)>> {
    seq![
        seq![("north"@, FOREST_PATH, false)],
        seq![("south"@, CABIN, false), ("east"@, RIVER_CROSSING, false)],
        seq![("west"@, FOREST_PATH, false), ("north"@, BRIDGE, false), ("east"@, CAVE_ENTRANCE, false)],
        seq![("south"@, RIVER_CROSSING, false), ("north"@, MOUNTAIN_TRAIL, false)],
        seq![("south"@, BRIDGE, false), ("north"@, SHRINE, false)],
        seq![("south"@, MOUNTAIN_TRAIL, false)],
        seq![("west"@, RIVER_CROSSING, false), ("enter"@, CAVE_INTERIOR, true)],
        seq![("exit"@, CAVE_ENTRANCE, false)],
    ]
}

/// The catalog of the mountain's items as (identifier, synonyms, gives light).
pub open spec fn mountain_catalog() -> Seq<(Seq<char>, Seq<Seq<char>>, bool)> {
    seq![
        ("dusty_key"@, seq!["key"@, "dusty key"@], false),
        ("sturdy_stick"@, seq!["stick"@, "sturdy stick"@], false),
        ("crystal_shard"@, seq!["crystal"@, "shard"@, "crystal shard"@], true),
    ]
}

/// The catalog as (identifier, synonyms, gives light).
pub open spec fn catalog_table(cat: Seq<ItemInfo>) -> Seq<(Seq<char>, Seq<Seq<char>>, bool)> {
    cat.map_values(|e: ItemInfo| (e.id@, texts(e.synonyms@), e.light))
}

/// The display names of the mountain's locations, by index.
pub open spec fn mountain_names() -> Seq<Seq<char>> {
    seq![
        "Abandoned Cabin"@,
        "Forest Path"@,
        "River Crossing"@,
        "Rickety Bridge"@,
        "Mountain Trail"@,
        "Ancient Shrine"@,
        "Cave Entrance"@,
        "Cave Interior"@,
    ]
}

/// The descriptions of the mountain's locations, by index.
pub open spec fn mountain_descriptions() -> Seq<Seq<char>> {
    seq![
        "You are in an old, dusty cabin. Sunlight streams through cracks in the wooden walls. There's a door to the north and a small table in the corner."@,
        "You're on a narrow path winding through tall pine trees. The cabin is to the south, and the path continues to the east."@,
        "A rushing river blocks your path. There's a rickety bridge to the north, and the forest path is to the west. A cave entrance is visible to the east."@,
        "You're on a swaying wooden bridge over the rushing river. The planks creak under your weight."@,
        "A steep trail winds up the mountainside. The bridge is to the south, and there's a small shrine at the top of the path to the north."@,
        "A small stone shrine sits at the top of the mountain. There's a locked chest in the center and strange symbols carved into the walls."@,
        "A dark cave mouth yawns before you. Cool air flows from within. The river crossing is to the west."@,
        "The cave is filled with glittering crystals that reflect your light. There's a small underground pool in the center."@,
    ]
}

/// The remarks of a location as (object, text).
pub open spec fn remark_table(l: Location) -> Seq<(Seq<char>, Seq<char>)> {
    l.remarks@.map_values(|r: Remark| (r.object@, r.text@))
}

/// What can be examined in each of the mountain's locations, and what it shows.
pub open spec fn mountain_remarks() -> Seq<Seq<(Seq<char>, Seq<char>)>> {
    seq![
        seq![("table"@, "A small wooden table with a dusty key on it."@), ("door"@, "A sturdy wooden door leading outside."@)],
        seq![("trees"@, "Tall pine trees surround you, their needles rustling in the breeze."@)],
        seq![("river"@, "The water is flowing rapidly, too dangerous to cross without the bridge."@), ("bridge"@, "A rickety wooden bridge that looks like it might collapse at any moment."@)],
        seq![("planks"@, "The wooden planks of the bridge are worn and creaky."@), ("river"@, "The river rushes below you, its waters crashing against rocks."@)],
        seq![("mountains"@, "The mountains loom tall and majestic around you."@)],
        seq![("chest"@, "A locked stone chest with an ancient keyhole."@), ("symbols"@, "Strange symbols are carved into the walls, telling a story of an ancient treasure."@)],
        seq![("cave"@, "The cave is dark. You'll need a light source to explore it."@)],
        seq![("pool"@, "The water in the pool is crystal clear and seems to glow with an inner light."@), ("crystals"@, "Beautiful crystals line the walls, glowing with a soft blue light."@)],
    ]
}

/// How each catalog entry is listed and how it reads when examined.
pub open spec fn catalog_texts(cat: Seq<ItemInfo>) -> Seq<(Seq<char>, Seq<char>)> {
    cat.map_values(|e: ItemInfo| (e.title@, e.detail@))
}

/// The titles and descriptions of the mountain's items, in catalog order.
pub open spec fn mountain_item_texts() -> Seq<(Seq<char>, Seq<char>)> {
    seq![
        ("A dusty old key"@, "An old iron key covered in dust. It might open something important."@),
        ("A sturdy wooden stick"@, "A strong branch that could be used as a torch if lit."@),
        ("A glowing crystal shard"@, "A beautiful crystal that glows with an inner light. It's bright enough to see by!"@),
    ]
}

/// What using the dusty key on the chest in the shrine shows.
pub open spec fn chest_text() -> Seq<char> {
    "You insert the dusty key into the chest. It fits! The chest opens, revealing a golden amulet. You've found the treasure!"@
}

fn exit(direction: &str, destination: usize, needs_light: bool) -> (e: Exit)
    ensures
        e.direction@ == direction@,
        e.destination == destination,
        e.needs_light == needs_light,
{
    Exit { direction: owned(direction), destination, needs_light }
}

fn remark(object: &str, text: &str) -> (r: Remark)
    ensures
        r.object@ == object@,
        r.text@ == text@,
{
    Remark { object: owned(object), text: owned(text) }
}

fn item(id: &str, synonyms: Vec<String>, title: &str, detail: &str, light: bool) -> (e: ItemInfo)
    ensures
        e.id@ == id@,
        e.synonyms == synonyms,
        e.title@ == title@,
        e.detail@ == detail@,
        e.light == light,
{
    ItemInfo { id: owned(id), synonyms, title: owned(title), detail: owned(detail), light }
}

fn place(
    key: &str,
    name: &str,
    description: &str,
    exits: Vec<Exit>,
    items: Vec<String>,
    remarks: Vec<Remark>,
) -> (l: Location)
    ensures
        l.key@ == key@,
        l.name@ == name@,
        l.description@ == description@,
        l.exits == exits,
        l.items == items,
        l.remarks == remarks,
        l.uses@.len() == 0,
{
    Location {
        key: owned(key),
        name: owned(name),
        description: owned(description),
        exits,
        items,
        remarks,
        uses: Vec::new(),
    }
}

/// The world of the mountain: a cabin, a forest path, a river crossing, a
/// bridge, a mountain trail up to a shrine with a locked chest, and a dark
/// cave that holds a glowing crystal shard.
pub fn mountain() -> (w: World)
    ensures
        w.wf(),
        w.locations@.len() == 8,
        forall|i: int| 0 <= i < 8 ==> #[trigger] w.locations@[i].key@ == mountain_keys()[i],
        forall|i: int| 0 <= i < 8 ==> texts(#[trigger] w.locations@[i].items@) == mountain_items()[i],
        forall|i: int| 0 <= i < 8 ==> exit_table(#[trigger] w.locations@[i]) == mountain_exits()[i],
        catalog_table(w.catalog@) == mountain_catalog(),
        use_keys(w.locations@[SHRINE as int]) == seq![("dusty_key"@, "chest"@)],
        w.locations@[SHRINE as int].uses@[0].wins,
        forall|i: int| 0 <= i < 8 && i != SHRINE ==> (#[trigger] w.locations@[i]).uses@.len() == 0,
        forall|i: int| 0 <= i < 8 ==> #[trigger] w.locations@[i].name@ == mountain_names()[i],
        forall|i: int|
            0 <= i < 8 ==> #[trigger] w.locations@[i].description@ == mountain_descriptions()[i],
        forall|i: int| 0 <= i < 8 ==> remark_table(#[trigger] w.locations@[i]) == mountain_remarks()[i],
        catalog_texts(w.catalog@) == mountain_item_texts(),
        w.locations@[SHRINE as int].uses@[0].text@ == chest_text(),
        forall|i: int, j: int|
            0 <= i < 8 && 0 <= j < w.locations@[i].exits@.len() && (#[trigger] w.locations@[i].exits@[j]).needs_light
                ==> i == CAVE_ENTRANCE && w.locations@[i].exits@[j].direction@ == "enter"@,
{
    let mut locations: Vec<Location> = Vec::new();
    locations.push(place(
        "cabin",
        "Abandoned Cabin",
        "You are in an old, dusty cabin. Sunlight streams through cracks in the wooden walls. There's a door to the north and a small table in the corner.",
        vec![exit("north", FOREST_PATH, false)],
        vec![owned("dusty_key")],
        vec![
            remark("table", "A small wooden table with a dusty key on it."),
            remark("door", "A sturdy wooden door leading outside."),
        ],
    ));
    locations.push(place(
        "forest_path",
        "Forest Path",
        "You're on a narrow path winding through tall pine trees. The cabin is to the south, and the path continues to the east.",
        vec![exit("south", CABIN, false), exit("east", RIVER_CROSSING, false)],
        Vec::new(),
        vec![remark("trees", "Tall pine trees surround you, their needles rustling in the breeze.")],
    ));
    locations.push(place(
        "river_crossing",
        "River Crossing",
        "A rushing river blocks your path. There's a rickety bridge to the north, and the forest path is to the west. A cave entrance is visible to the east.",
        vec![
            exit("west", FOREST_PATH, false),
            exit("north", BRIDGE, false),
            exit("east", CAVE_ENTRANCE, false),
        ],
        vec![owned("sturdy_stick")],
        vec![
            remark("river", "The water is flowing rapidly, too dangerous to cross without the bridge."),
            remark("bridge", "A rickety wooden bridge that looks like it might collapse at any moment."),
        ],
    ));
    locations.push(place(
        "bridge",
        "Rickety Bridge",
        "You're on a swaying wooden bridge over the rushing river. The planks creak under your weight.",
        vec![exit("south", RIVER_CROSSING, false), exit("north", MOUNTAIN_TRAIL, false)],
        Vec::new(),
        vec![
            remark("planks", "The wooden planks of the bridge are worn and creaky."),
            remark("river", "The river rushes below you, its waters crashing against rocks."),
        ],
    ));
    locations.push(place(
        "mountain_trail",
        "Mountain Trail",
        "A steep trail winds up the mountainside. The bridge is to the south, and there's a small shrine at the top of the path to the north.",
        vec![exit("south", BRIDGE, false), exit("north", SHRINE, false)],
        Vec::new(),
        vec![remark("mountains", "The mountains loom tall and majestic around you.")],
    ));
    let mut shrine = place(
        "shrine",
        "Ancient Shrine",
        "A small stone shrine sits at the top of the mountain. There's a locked chest in the center and strange symbols carved into the walls.",
        vec![exit("south", MOUNTAIN_TRAIL, false)],
        Vec::new(),
        vec![
            remark("chest", "A locked stone chest with an ancient keyhole."),
            remark("symbols", "Strange symbols are carved into the walls, telling a story of an ancient treasure."),
        ],
    );
    shrine.uses.push(UseRule {
        item: owned("dusty_key"),
        target: owned("chest"),
        text: owned("You insert the dusty key into the chest. It fits! The chest opens, revealing a golden amulet. You've found the treasure!"),
        wins: true,
    });
    locations.push(shrine);
    locations.push(place(
        "cave_entrance",
        "Cave Entrance",
        "A dark cave mouth yawns before you. Cool air flows from within. The river crossing is to the west.",
        vec![exit("west", RIVER_CROSSING, false), exit("enter", CAVE_INTERIOR, true)],
        Vec::new(),
        vec![remark("cave", "The cave is dark. You'll need a light source to explore it.")],
    ));
    locations.push(place(
        "cave_interior",
        "Cave Interior",
        "The cave is filled with glittering crystals that reflect your light. There's a small underground pool in the center.",
        vec![exit("exit", CAVE_ENTRANCE, false)],
        vec![owned("crystal_shard")],
        vec![
            remark("pool", "The water in the pool is crystal clear and seems to glow with an inner light."),
            remark("crystals", "Beautiful crystals line the walls, glowing with a soft blue light."),
        ],
    ));
    let catalog = vec![
        item(
            "dusty_key",
            vec![owned("key"), owned("dusty key")],
            "A dusty old key",
            "An old iron key covered in dust. It might open something important.",
            false,
        ),
        item(
            "sturdy_stick",
            vec![owned("stick"), owned("sturdy stick")],
            "A sturdy wooden stick",
            "A strong branch that could be used as a torch if lit.",
            false,
        ),
        item(
            "crystal_shard",
            vec![owned("crystal"), owned("shard"), owned("crystal shard")],
            "A glowing crystal shard",
            "A beautiful crystal that glows with an inner light. It's bright enough to see by!",
            true,
        ),
    ];
    let w = World { locations, catalog };
    proof {
        assert(exits_within(w.locations@, 8));
        assert(texts(w.locations@[0].items@) =~= mountain_items()[0]);
        assert(texts(w.locations@[1].items@) =~= mountain_items()[1]);
        assert(texts(w.locations@[2].items@) =~= mountain_items()[2]);
        assert(texts(w.locations@[3].items@) =~= mountain_items()[3]);
        assert(texts(w.locations@[4].items@) =~= mountain_items()[4]);
        assert(texts(w.locations@[5].items@) =~= mountain_items()[5]);
        assert(texts(w.locations@[6].items@) =~= mountain_items()[6]);
        assert(texts(w.locations@[7].items@) =~= mountain_items()[7]);
        assert(exit_table(w.locations@[0]) =~= mountain_exits()[0]);
        assert(exit_table(w.locations@[1]) =~= mountain_exits()[1]);
        assert(exit_table(w.locations@[2]) =~= mountain_exits()[2]);
        assert(exit_table(w.locations@[3]) =~= mountain_exits()[3]);
        assert(exit_table(w.locations@[4]) =~= mountain_exits()[4]);
        assert(exit_table(w.locations@[5]) =~= mountain_exits()[5]);
        assert(exit_table(w.locations@[6]) =~= mountain_exits()[6]);
        assert(exit_table(w.locations@[7]) =~= mountain_exits()[7]);
        assert(texts(w.catalog@[0].synonyms@) =~= mountain_catalog()[0].1);
        assert(texts(w.catalog@[1].synonyms@) =~= mountain_catalog()[1].1);
        assert(texts(w.catalog@[2].synonyms@) =~= mountain_catalog()[2].1);
        assert(catalog_table(w.catalog@) =~= mountain_catalog());
        assert(use_keys(w.locations@[SHRINE as int]) =~= seq![("dusty_key"@, "chest"@)]);
        assert(remark_table(w.locations@[0]) =~= mountain_remarks()[0]);
        assert(remark_table(w.locations@[1]) =~= mountain_remarks()[1]);
        assert(remark_table(w.locations@[2]) =~= mountain_remarks()[2]);
        assert(remark_table(w.locations@[3]) =~= mountain_remarks()[3]);
        assert(remark_table(w.locations@[4]) =~= mountain_remarks()[4]);
        assert(remark_table(w.locations@[5]) =~= mountain_remarks()[5]);
        assert(remark_table(w.locations@[6]) =~= mountain_remarks()[6]);
        assert(remark_table(w.locations@[7]) =~= mountain_remarks()[7]);
        assert(catalog_texts(w.catalog@) =~= mountain_item_texts());
    }
    w
}

} // verus!
