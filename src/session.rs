use vstd::prelude::*;
use crate::command::{object_of, parse_command, target_of, verb_of, Command, Verb};
use crate::game::{
    drop_post, examine_lines, go_post, inventory_lines, look_lines, take_post, use_post, Game,
};
use crate::text::{is_blank, lower_of, lowercase, owned, split_words, texts, words_of};

verus! {

/// What one turn produced: the lines to show, and whether the player quit.
pub struct Reply {
    pub lines: Vec<String>,
    pub quit: bool,
}

/// The command summary that `help` shows.
pub open spec fn help_lines() -> Seq<Seq<char>> {
    seq![
        ""@,
        "=== Commands ==="@,
        "look - Look around the current location"@,
        "go [direction] - Move in a direction (north, south, east, west, etc.)"@,
        "examine [object] - Look more closely at an object"@,
        "take [item] - Pick up an item"@,
        "drop [item] - Drop an item from your inventory"@,
        "use [item] [target] - Use an item on a target (e.g., use key door)"@,
        "inventory - Check your inventory"@,
        "help - Show this help message"@,
        "quit - End the game"@,
    ]
}

/// The standing notice shown after each recognised command once the
/// treasure is found.
pub open spec fn notice(g: Game) -> Seq<Seq<char>> {
    if g.state.found_treasure {
        seq![
            ""@,
            "You've completed the adventure! The golden amulet glows with an ancient power."@,
            "Type 'quit' to end the game or continue exploring if you wish."@,
        ]
    } else {
        Seq::empty()
    }
}

/// The lines of a turn before the standing notice.
pub open spec fn body(out: Seq<Seq<char>>, new: Game) -> Seq<Seq<char>> {
    out.subrange(0, out.len() - notice(new).len())
}

/// What one command does to the session and shows.
pub open spec fn step_post(
    old: Game,
    verb: Verb,
    object: Seq<char>,
    target: Seq<char>,
    new: Game,
    out: Seq<Seq<char>>,
) -> bool {
    let b = body(out, new);
    match verb {
        Verb::Nothing => new == old && out.len() == 0,
        Verb::Unknown => new == old && out == seq![
            "I don't understand that command. Type 'help' for a list of commands."@,
        ],
        Verb::Quit => new == old && out == seq!["Thanks for playing!"@],
        _ => {
            &&& out.len() >= notice(new).len()
            &&& out == b + notice(new)
            &&& match verb {
                Verb::Look => new == old && b == look_lines(old.world, old.state.current as int),
                Verb::Go => go_post(old, object, new, b),
                Verb::Examine => new == old && b == examine_lines(old, object),
                Verb::Take => take_post(old, object, new, b),
                Verb::Drop => drop_post(old, object, new, b),
                Verb::Use => use_post(old, object, target, new, b),
                Verb::Inventory => new == old && b == inventory_lines(old),
                _ => new == old && b == help_lines(),
            }
        },
    }
}

fn help() -> (r: Vec<String>)
    ensures
        texts(r@) == help_lines(),
{
    let mut r: Vec<String> = Vec::new();
    r.push(owned(""));
    r.push(owned("=== Commands ==="));
    r.push(owned("look - Look around the current location"));
    r.push(owned("go [direction] - Move in a direction (north, south, east, west, etc.)"));
    r.push(owned("examine [object] - Look more closely at an object"));
    r.push(owned("take [item] - Pick up an item"));
    r.push(owned("drop [item] - Drop an item from your inventory"));
    r.push(owned("use [item] [target] - Use an item on a target (e.g., use key door)"));
    r.push(owned("inventory - Check your inventory"));
    r.push(owned("help - Show this help message"));
    r.push(owned("quit - End the game"));
    proof {
        assert(texts(r@) =~= help_lines());
    }
    r
}

impl Game {
    /// The command summary.
    pub fn help(&self) -> (r: Vec<String>)
        ensures
            texts(r@) == help_lines(),
    {
        help()
    }

    /// Carries out one command, then adds the standing notice if the
    /// treasure has been found.
    pub fn execute(&mut self, c: &Command) -> (r: Reply)
        requires
            old(self).wf(),
        ensures
            final(self).wf(),
            step_post(*old(self), c.verb, c.object@, c.target@, *final(self), texts(r.lines@)),
            r.quit == (c.verb == Verb::Quit),
    {
        let mut lines = match c.verb {
            Verb::Nothing => {
                let r = Reply { lines: Vec::new(), quit: false };
                proof {
                    assert(texts(r.lines@) =~= Seq::empty());
                }
                return r;
            },
            Verb::Unknown => {
                let mut lines: Vec<String> = Vec::new();
                lines.push(
                    owned("I don't understand that command. Type 'help' for a list of commands."),
                );
                proof {
                    assert(texts(lines@) =~= seq![
                        "I don't understand that command. Type 'help' for a list of commands."@,
                    ]);
                }
                return Reply { lines, quit: false };
            },
            Verb::Quit => {
                let mut lines: Vec<String> = Vec::new();
                lines.push(owned("Thanks for playing!"));
                proof {
                    assert(texts(lines@) =~= seq!["Thanks for playing!"@]);
                }
                return Reply { lines, quit: true };
            },
            Verb::Look => self.look(),
            Verb::Go => self.go(c.object.as_str()),
            Verb::Examine => self.examine(c.object.as_str()),
            Verb::Take => self.take(c.object.as_str()),
            Verb::Drop => self.drop(c.object.as_str()),
            Verb::Use => self.use_item(c.object.as_str(), c.target.as_str()),
            Verb::Inventory => self.inventory(),
            Verb::Help => help(),
        };
        let ghost b = texts(lines@);
        if self.state.found_treasure {
            lines.push(owned(""));
            lines.push(
                owned(
                    "You've completed the adventure! The golden amulet glows with an ancient power.",
                ),
            );
            lines.push(owned("Type 'quit' to end the game or continue exploring if you wish."));
        }
        proof {
            assert(texts(lines@) =~= b + notice(*self));
            assert(body(texts(lines@), *self) =~= b);
        }
        Reply { lines, quit: false }
    }

    /// Reads a line that has been lower-cased and split into words, and
    /// carries out the command it forms.
    pub fn handle_words(&mut self, words: &Vec<String>) -> (r: Reply)
        requires
            old(self).wf(),
        ensures
            final(self).wf(),
            ({
                let w = texts(words@);
                step_post(
                    *old(self),
                    verb_of(w),
                    object_of(w),
                    target_of(w),
                    *final(self),
                    texts(r.lines@),
                )
            }),
            r.quit == (verb_of(texts(words@)) == Verb::Quit),
    {
        let c = parse_command(words);
        self.execute(&c)
    }

    /// Reads one raw input line: case-folds it, splits it into words, and
    /// carries out the command they form. A blank line does nothing.
    pub fn process_line(&mut self, line: &str) -> (r: Reply)
        requires
            old(self).wf(),
        ensures
            final(self).wf(),
            ({
                let w = words_of(lower_of(line@));
                step_post(
                    *old(self),
                    verb_of(w),
                    object_of(w),
                    target_of(w),
                    *final(self),
                    texts(r.lines@),
                )
            }),
            r.quit == (verb_of(words_of(lower_of(line@))) == Verb::Quit),
            is_blank(line@) ==> *final(self) == *old(self) && r.lines@.len() == 0 && !r.quit,
    {
        let folded = lowercase(line);
        let words = split_words(folded.as_str());
        self.handle_words(&words)
    }
}

} // verus!
