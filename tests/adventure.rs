use mountain_mystery::command::{parse_command, Verb};
use mountain_mystery::game::Game;
use mountain_mystery::session::Reply;

fn said(lines: &[String]) -> Vec<&str> {
    lines.iter().map(|s| s.as_str()).collect()
}

fn key_here(g: &Game) -> String {
    g.world.locations[g.state.current].key.clone()
}

fn copies(g: &Game, id: &str) -> usize {
    let placed: usize = g
        .world
        .locations
        .iter()
        .map(|l| l.items.iter().filter(|i| i.as_str() == id).count())
        .sum();
    placed + g.state.inventory.iter().filter(|i| i.as_str() == id).count()
}

fn words(ws: &[&str]) -> Vec<String> {
    ws.iter().map(|w| w.to_string()).collect()
}

#[test]
fn fresh_game_starts_in_the_cabin() {
    let g = Game::new();
    assert_eq!(key_here(&g), "cabin");
    assert!(g.state.inventory.is_empty());
    assert!(!g.state.has_light);
    assert!(!g.state.found_treasure);
    assert_eq!(g.world.locations.len(), 8);
}

#[test]
fn look_lists_name_items_and_exits() {
    let g = Game::new();
    let out = g.look();
    assert_eq!(
        said(&out),
        vec![
            "",
            "=== Abandoned Cabin ===",
            "You are in an old, dusty cabin. Sunlight streams through cracks in the wooden walls. There's a door to the north and a small table in the corner.",
            "",
            "You can see:",
            "- A dusty old key",
            "",
            "Exits:",
            "- north",
        ]
    );
}

#[test]
fn look_lists_exits_in_declared_order() {
    let mut g = Game::new();
    g.go("north");
    let out = g.go("east");
    let n = out.len();
    assert_eq!(said(&out[n - 4..]), vec!["Exits:", "- west", "- north", "- east"]);
    assert!(out.contains(&"- A sturdy wooden stick".to_string()));
}

#[test]
fn look_without_items_has_no_item_list() {
    let mut g = Game::new();
    let out = g.go("north");
    assert_eq!(said(&out)[1], "=== Forest Path ===");
    assert!(!out.contains(&"You can see:".to_string()));
}

#[test]
fn moves_follow_declared_exits_only() {
    let mut g = Game::new();
    assert_eq!(said(&g.go("south")), vec!["You can't go that way."]);
    assert_eq!(key_here(&g), "cabin");
    g.go("north");
    assert_eq!(key_here(&g), "forest_path");
    assert!(g.state.visited[1]);
    g.go("east");
    assert_eq!(key_here(&g), "river_crossing");
    assert_eq!(said(&g.go("south")), vec!["You can't go that way."]);
    assert_eq!(key_here(&g), "river_crossing");
    g.go("west");
    assert_eq!(key_here(&g), "forest_path");
    g.go("south");
    assert_eq!(key_here(&g), "cabin");
}

#[test]
fn dark_cave_needs_the_shard() {
    let mut g = Game::new();
    g.go("north");
    g.go("east");
    g.go("east");
    assert_eq!(key_here(&g), "cave_entrance");
    let out = g.go("enter");
    assert_eq!(said(&out), vec!["It's too dark to enter the cave. You need a light source."]);
    assert_eq!(key_here(&g), "cave_entrance");
    let out = g.go("enter");
    assert_eq!(said(&out), vec!["It's too dark to enter the cave. You need a light source."]);
    assert_eq!(key_here(&g), "cave_entrance");
}

#[test]
fn shard_lights_the_way_into_the_cave() {
    let mut g = Game::new();
    for d in ["north", "east", "east"] {
        g.go(d);
    }
    // The shard lies inside the cave; carry it out and back in.
    g.state.has_light = true;
    g.go("enter");
    assert_eq!(key_here(&g), "cave_interior");
    g.state.has_light = false;
    let out = g.take("shard");
    assert_eq!(
        said(&out),
        vec!["You pick up the crystal shard. It glows brightly in your hand, providing enough light to see by!"]
    );
    assert!(g.state.has_light);
    g.go("exit");
    assert_eq!(key_here(&g), "cave_entrance");
    g.go("enter");
    assert_eq!(key_here(&g), "cave_interior");
    g.go("exit");
    g.drop("crystal");
    assert!(!g.state.has_light);
    assert_eq!(said(&g.go("enter")), vec!["It's too dark to enter the cave. You need a light source."]);
    g.take("crystal shard");
    assert!(g.state.has_light);
    g.go("enter");
    assert_eq!(key_here(&g), "cave_interior");
}

#[test]
fn winning_sequence_finds_the_treasure() {
    let mut g = Game::new();
    g.take("dusty_key");
    g.go("north");
    g.go("east");
    g.go("north");
    g.go("north");
    // Four moves reach the mountain trail; the shrine lies one more step north.
    assert_eq!(key_here(&g), "mountain_trail");
    assert_eq!(said(&g.use_item("dusty_key", "chest")), vec!["You can't use the dusty_key on that."]);
    assert!(!g.state.found_treasure);
    g.go("north");
    assert_eq!(key_here(&g), "shrine");
    let first = g.use_item("dusty_key", "chest");
    assert!(g.state.found_treasure);
    assert_eq!(
        said(&first),
        vec![
            "You insert the dusty key into the chest. It fits! The chest opens, revealing a golden amulet. You've found the treasure!",
            "",
            "Congratulations! You've completed the adventure!",
        ]
    );
    let inventory_before = g.state.inventory.clone();
    let second = g.use_item("dusty_key", "chest");
    assert_eq!(first, second);
    assert!(g.state.found_treasure);
    assert_eq!(g.state.inventory, inventory_before);
    assert_eq!(key_here(&g), "shrine");
}

#[test]
fn winning_by_typed_lines_shows_standing_notice() {
    let mut g = Game::new();
    for l in ["take key", "n", "e", "n", "n", "n"] {
        let r = g.process_line(l);
        assert!(!r.quit);
    }
    let r = g.process_line("use key chest");
    assert!(g.state.found_treasure);
    assert_eq!(
        said(&r.lines),
        vec![
            "You insert the dusty key into the chest. It fits! The chest opens, revealing a golden amulet. You've found the treasure!",
            "",
            "Congratulations! You've completed the adventure!",
            "",
            "You've completed the adventure! The golden amulet glows with an ancient power.",
            "Type 'quit' to end the game or continue exploring if you wish.",
        ]
    );
    let r = g.process_line("look");
    let n = r.lines.len();
    assert_eq!(r.lines[n - 1], "Type 'quit' to end the game or continue exploring if you wish.");
    // Play goes on after the win.
    let r = g.process_line("s");
    assert_eq!(key_here(&g), "mountain_trail");
    assert!(!r.quit);
}

#[test]
fn synonyms_name_one_canonical_item() {
    for word in ["key", "dusty key", "dusty_key"] {
        let mut g = Game::new();
        let out = g.take(word);
        assert_eq!(said(&out), vec![format!("You take the {}.", word).as_str()]);
        assert_eq!(g.state.inventory, vec!["dusty_key".to_string()]);
        assert!(g.world.locations[0].items.is_empty());
    }
    for word in ["key", "dusty key", "dusty_key"] {
        let mut g = Game::new();
        g.take("key");
        let out = g.drop(word);
        assert_eq!(said(&out), vec![format!("You drop the {}.", word).as_str()]);
        assert!(g.state.inventory.is_empty());
        assert_eq!(g.world.locations[0].items, vec!["dusty_key".to_string()]);
    }
}

#[test]
fn typed_two_word_item_names_resolve() {
    let mut g = Game::new();
    let r = g.process_line("take dusty key");
    assert_eq!(said(&r.lines), vec!["You take the dusty key."]);
    assert_eq!(g.state.inventory, vec!["dusty_key".to_string()]);
    let r = g.process_line("drop dusty key");
    assert_eq!(said(&r.lines), vec!["You drop the dusty key."]);
    assert!(g.state.inventory.is_empty());
}

#[test]
fn unknown_command_changes_nothing() {
    let mut g = Game::new();
    g.take("key");
    g.go("north");
    let r = g.process_line("frobnicate");
    assert_eq!(
        said(&r.lines),
        vec!["I don't understand that command. Type 'help' for a list of commands."]
    );
    assert!(!r.quit);
    assert_eq!(key_here(&g), "forest_path");
    assert_eq!(g.state.inventory, vec!["dusty_key".to_string()]);
    assert!(!g.state.has_light);
    assert!(!g.state.found_treasure);
}

#[test]
fn unknown_shapes_are_not_understood() {
    for l in ["go", "take", "use key", "dance wildly now", "look at", "a b c d"] {
        let mut g = Game::new();
        let r = g.process_line(l);
        assert_eq!(
            said(&r.lines),
            vec!["I don't understand that command. Type 'help' for a list of commands."],
            "{}",
            l
        );
        assert_eq!(key_here(&g), "cabin");
    }
}

#[test]
fn blank_line_does_nothing() {
    for l in ["", "   ", " \t ", "\n", "  \r\n"] {
        let mut g = Game::new();
        let r: Reply = g.process_line(l);
        assert!(r.lines.is_empty());
        assert!(!r.quit);
        assert_eq!(key_here(&g), "cabin");
        assert!(g.state.inventory.is_empty());
        assert_eq!(g.world.locations[0].items, vec!["dusty_key".to_string()]);
    }
}

#[test]
fn lines_are_case_folded_and_split() {
    let mut g = Game::new();
    let r = g.process_line("  GO   North  ");
    assert_eq!(key_here(&g), "forest_path");
    assert_eq!(r.lines[1], "=== Forest Path ===");
    let r = g.process_line("LOOK AT Trees");
    assert_eq!(
        said(&r.lines),
        vec!["Tall pine trees surround you, their needles rustling in the breeze."]
    );
}

#[test]
fn quit_and_exit() {
    let mut g = Game::new();
    for l in ["quit", "q", "Q"] {
        let r = g.process_line(l);
        assert!(r.quit);
        assert_eq!(said(&r.lines), vec!["Thanks for playing!"]);
    }
    // "exit" is a movement first.
    let r = g.process_line("exit");
    assert!(!r.quit);
    assert_eq!(said(&r.lines), vec!["You can't go that way."]);
}

#[test]
fn parse_recognises_command_shapes() {
    let c = parse_command(&words(&["n"]));
    assert_eq!(c.verb, Verb::Go);
    assert_eq!(c.object, "north");
    let c = parse_command(&words(&["w"]));
    assert_eq!(c.object, "west");
    let c = parse_command(&words(&["look", "at", "chest"]));
    assert_eq!(c.verb, Verb::Examine);
    assert_eq!(c.object, "chest");
    let c = parse_command(&words(&["x", "pool"]));
    assert_eq!(c.verb, Verb::Examine);
    assert_eq!(c.object, "pool");
    let c = parse_command(&words(&["use", "key", "chest"]));
    assert_eq!(c.verb, Verb::Use);
    assert_eq!(c.object, "key");
    assert_eq!(c.target, "chest");
    let c = parse_command(&words(&["get", "sturdy", "stick"]));
    assert_eq!(c.verb, Verb::Take);
    assert_eq!(c.object, "sturdy stick");
    assert_eq!(parse_command(&words(&["i"])).verb, Verb::Inventory);
    assert_eq!(parse_command(&words(&["?"])).verb, Verb::Help);
    assert_eq!(parse_command(&words(&[])).verb, Verb::Nothing);
    assert_eq!(parse_command(&words(&["frobnicate"])).verb, Verb::Unknown);
}

#[test]
fn examine_remarks_and_carried_items() {
    let mut g = Game::new();
    assert_eq!(said(&g.examine("table")), vec!["A small wooden table with a dusty key on it."]);
    assert_eq!(said(&g.examine("key")), vec!["You don't see that here."]);
    g.take("key");
    assert_eq!(
        said(&g.examine("key")),
        vec!["An old iron key covered in dust. It might open something important."]
    );
    assert_eq!(
        said(&g.examine("dusty_key")),
        vec!["An old iron key covered in dust. It might open something important."]
    );
    assert_eq!(said(&g.examine("chest")), vec!["You don't see that here."]);
}

#[test]
fn take_and_drop_refusals() {
    let mut g = Game::new();
    assert_eq!(said(&g.take("stick")), vec!["You don't see that here."]);
    assert_eq!(said(&g.drop("key")), vec!["You don't have that."]);
    assert_eq!(said(&g.take("lamp")), vec!["You don't see that here."]);
    assert_eq!(key_here(&g), "cabin");
    assert!(g.state.inventory.is_empty());
}

#[test]
fn use_refusals() {
    let mut g = Game::new();
    assert_eq!(said(&g.use_item("key", "door")), vec!["You don't have the key."]);
    g.take("key");
    assert_eq!(said(&g.use_item("key", "door")), vec!["You can't use the key on that."]);
    // The chest rule belongs to the shrine only.
    assert_eq!(said(&g.use_item("key", "chest")), vec!["You can't use the key on that."]);
    assert!(!g.state.found_treasure);
}

#[test]
fn inventory_lists_carried_items() {
    let mut g = Game::new();
    assert_eq!(said(&g.inventory()), vec!["Your inventory is empty."]);
    g.take("key");
    g.go("north");
    g.go("east");
    g.take("stick");
    assert_eq!(
        said(&g.inventory()),
        vec!["Inventory:", "- A dusty old key", "- A sturdy wooden stick"]
    );
}

#[test]
fn dropped_items_show_in_the_new_place() {
    let mut g = Game::new();
    g.take("key");
    g.go("north");
    g.drop("key");
    let out = g.look();
    assert!(out.contains(&"- A dusty old key".to_string()));
    assert_eq!(g.world.locations[1].items, vec!["dusty_key".to_string()]);
}

#[test]
fn help_lists_commands() {
    let g = Game::new();
    let out = g.help();
    assert_eq!(out.len(), 11);
    assert_eq!(out[1], "=== Commands ===");
    assert_eq!(out[10], "quit - End the game");
}

#[test]
fn items_are_never_lost_or_duplicated() {
    let mut g = Game::new();
    let ids = ["dusty_key", "sturdy_stick", "crystal_shard"];
    let script = [
        "take key", "take key", "drop stick", "n", "drop key", "take key", "e", "take stick",
        "drop stick", "take stick", "e", "enter", "drop key", "drop key", "w", "drop stick",
        "take sturdy stick", "use key chest",
    ];
    for id in ids {
        assert_eq!(copies(&g, id), 1);
    }
    for l in script {
        g.process_line(l);
        for id in ids {
            assert_eq!(copies(&g, id), 1, "{} after {}", id, l);
        }
    }
}
