use vstd::prelude::*;
use crate::text::{joined3, owned, same_text, texts};

verus! {

/// The kinds of command the interpreter knows, with `Nothing` for a blank
/// line and `Unknown` for anything it does not recognise.
#[derive(PartialEq, Eq, Structural, Clone, Copy, Debug)]
pub enum Verb {
    Look,
    Go,
    Examine,
    Take,
    Drop,
    Use,
    Inventory,
    Help,
    Quit,
    Nothing,
    Unknown,
}

/// A recognised line: what to do, on what object (a direction, an object,
/// an item), and for `Use` on what target.
pub struct Command {
    pub verb: Verb,
    pub object: String,
    pub target: String,
}

/// The direction that a single-word movement command stands for.
pub open spec fn direction_of(a: Seq<char>) -> Seq<char> {
    if a == "n"@ {
        "north"@
    } else if a == "s"@ {
        "south"@
    } else if a == "e"@ {
        "east"@
    } else if a == "w"@ {
        "west"@
    } else {
        a
    }
}

/// Whether a single word is a movement command.
pub open spec fn is_move_word(a: Seq<char>) -> bool {
    a == "north"@ || a == "n"@ || a == "south"@ || a == "s"@ || a == "east"@ || a == "e"@ || a
        == "west"@ || a == "w"@ || a == "enter"@ || a == "exit"@
}

/// The kind of command that a line of words is, by its shape.
pub open spec fn verb_of(w: Seq<Seq<char>>) -> Verb {
    if w.len() == 0 {
        Verb::Nothing
    } else if w.len() == 1 {
        let a = w[0];
        if a == "look"@ {
            Verb::Look
        } else if is_move_word(a) {
            Verb::Go
        } else if a == "inventory"@ || a == "i"@ {
            Verb::Inventory
        } else if a == "help"@ || a == "?"@ {
            Verb::Help
        } else if a == "quit"@ || a == "q"@ {
            Verb::Quit
        } else {
            Verb::Unknown
        }
    } else if w.len() == 2 {
        let a = w[0];
        if a == "go"@ {
            Verb::Go
        } else if a == "examine"@ || a == "x"@ {
            Verb::Examine
        } else if a == "take"@ || a == "get"@ {
            Verb::Take
        } else if a == "drop"@ {
            Verb::Drop
        } else {
            Verb::Unknown
        }
    } else if w.len() == 3 {
        let a = w[0];
        if a == "look"@ && w[1] == "at"@ {
            Verb::Examine
        } else if a == "use"@ {
            Verb::Use
        } else if a == "take"@ || a == "get"@ {
            Verb::Take
        } else if a == "drop"@ {
            Verb::Drop
        } else {
            Verb::Unknown
        }
    } else {
        Verb::Unknown
    }
}

/// What the command acts on: the direction of a movement, the object of an
/// examination, or the item (two words joined by a space for an item named
/// in two words).
pub open spec fn object_of(w: Seq<Seq<char>>) -> Seq<char> {
    let v = verb_of(w);
    if v == Verb::Go && w.len() == 1 {
        direction_of(w[0])
    } else if w.len() == 2 && (v == Verb::Go || v == Verb::Examine || v == Verb::Take || v
        == Verb::Drop) {
        w[1]
    } else if w.len() == 3 && v == Verb::Examine {
        w[2]
    } else if w.len() == 3 && v == Verb::Use {
        w[1]
    } else if w.len() == 3 && (v == Verb::Take || v == Verb::Drop) {
        w[1] + " "@ + w[2]
    } else {
        Seq::empty()
    }
}

/// The target of a `use` command.
pub open spec fn target_of(w: Seq<Seq<char>>) -> Seq<char> {
    if verb_of(w) == Verb::Use {
        w[2]
    } else {
        Seq::empty()
    }
}

fn move_word(a: &String) -> (r: bool)
    ensures
        r == is_move_word(a@),
{
    same_text("north", a) || same_text("n", a) || same_text("south", a) || same_text("s", a)
        || same_text("east", a) || same_text("e", a) || same_text("west", a) || same_text("w", a)
        || same_text("enter", a) || same_text("exit", a)
}

fn expand_direction(a: &String) -> (r: String)
    ensures
        r@ == direction_of(a@),
{
    if same_text("n", a) {
        owned("north")
    } else if same_text("s", a) {
        owned("south")
    } else if same_text("e", a) {
        owned("east")
    } else if same_text("w", a) {
        owned("west")
    } else {
        a.clone()
    }
}

/// Recognises the shape of a line of lower-case words.
pub fn parse_command(words: &Vec<String>) -> (c: Command)
    ensures
        c.verb == verb_of(texts(words@)),
        c.object@ == object_of(texts(words@)),
        c.target@ == target_of(texts(words@)),
{
    let ghost w = texts(words@);
    let n = words.len();
    let none = Command { verb: Verb::Unknown, object: String::new(), target: String::new() };
    if n == 0 {
        return Command { verb: Verb::Nothing, object: String::new(), target: String::new() };
    }
    let a = &words[0];
    proof {
        assert(w[0] == a@);
    }
    if n == 1 {
        let verb = if same_text("look", a) {
            Verb::Look
        } else if move_word(a) {
            Verb::Go
        } else if same_text("inventory", a) || same_text("i", a) {
            Verb::Inventory
        } else if same_text("help", a) || same_text("?", a) {
            Verb::Help
        } else if same_text("quit", a) || same_text("q", a) {
            Verb::Quit
        } else {
            Verb::Unknown
        };
        let object = if verb == Verb::Go {
            expand_direction(a)
        } else {
            String::new()
        };
        return Command { verb, object, target: String::new() };
    }
    let b = &words[1];
    proof {
        assert(w[1] == b@);
    }
    if n == 2 {
        let verb = if same_text("go", a) {
            Verb::Go
        } else if same_text("examine", a) || same_text("x", a) {
            Verb::Examine
        } else if same_text("take", a) || same_text("get", a) {
            Verb::Take
        } else if same_text("drop", a) {
            Verb::Drop
        } else {
            Verb::Unknown
        };
        if verb == Verb::Unknown {
            return none;
        }
        return Command { verb, object: b.clone(), target: String::new() };
    }
    if n > 3 {
        return none;
    }
    let t = &words[2];
    proof {
        assert(w[2] == t@);
    }
    if same_text("look", a) && same_text("at", b) {
        Command { verb: Verb::Examine, object: t.clone(), target: String::new() }
    } else if same_text("use", a) {
        Command { verb: Verb::Use, object: b.clone(), target: t.clone() }
    } else if same_text("take", a) || same_text("get", a) {
        Command { verb: Verb::Take, object: joined3(b.as_str(), " ", t.as_str()), target: String::new() }
    } else if same_text("drop", a) {
        Command { verb: Verb::Drop, object: joined3(b.as_str(), " ", t.as_str()), target: String::new() }
    } else {
        none
    }
}

} // verus!
