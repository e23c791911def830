//! The typing session: a cursor over a fixed flattened script, an exact
//! boss-health fraction derived from the cursor, and a restart flag, driven
//! one character at a time through [`Game::process_char`].

use vstd::prelude::*;
use vstd::string::StringExecFns;

use crate::chars;
use crate::text::{flat_lines, lens_of, line_metas, metas_from, line_block};
use crate::text::{lemma_flat_lines_snoc, lemma_metas_from_snoc, lemma_metas_valid};

verus! {

/// What one submitted character did to the session.
#[derive(Clone, Copy, Debug, PartialEq, Eq)]
pub enum StepResult {
    /// The character matched the expected one and the cursor advanced.
    Correct,
    /// The character (carried here) did not match; nothing advanced.
    Wrong(char),
    /// The character was filtered out or arrived while a restart was awaited.
    Ignored,
    /// The script is now fully typed; a space will restart the round.
    Victory,
    /// A space arrived while a restart was awaited; the round begins anew.
    Restarted,
}

/// The mathematical state of a session.
#[verifier::ext_equal]
pub ghost struct GameView {
    /// The whole script, flattened into one character sequence.
    pub script: Seq<char>,
    /// For each script index, the line and the position within that line.
    pub metas: Seq<(usize, usize)>,
    /// The character count of each line, in order.
    pub line_lens: Seq<usize>,
    /// Index of the next expected character; equal to the script length once
    /// the script is fully typed.
    pub cursor: int,
    /// Whether the round is over and a space is awaited.
    pub awaiting_restart: bool,
    /// The latest status text, for display only.
    pub message: Seq<char>,
}

impl GameView {
    /// The script length.
    pub open spec fn total(self) -> int {
        self.script.len() as int
    }

    /// Well-formedness: the index map matches the line lengths and covers
    /// the script, the cursor stays in bounds, and the restart flag is set
    /// exactly at completion (except that a zero-length script may stand
    /// momentarily completed-but-unflagged right after a restart).
    pub open spec fn inv(self) -> bool {
        &&& self.metas == line_metas(self.line_lens)
        &&& self.metas.len() == self.script.len()
        &&& self.line_lens.len() <= usize::MAX
        &&& 0 <= self.cursor <= self.total()
        &&& (self.awaiting_restart ==> self.cursor == self.total())
        &&& (self.total() > 0 && self.cursor == self.total() ==> self.awaiting_restart)
    }
}

/// Boss health as an exact fraction of the 100-point scale: the current
/// health percentage is `health_points(v) / v.total()` whenever the script
/// is non-empty. Each accepted character costs the per-character damage
/// `100 / total`, so it lowers this numerator by exactly 100.
pub open spec fn health_points(v: GameView) -> int {
    100 * (v.total() - v.cursor)
}

/// The status text a fresh session starts with.
pub open spec fn start_text() -> Seq<char> {
    "Type the whole script to defeat the boss."@
}

/// The status text after a correct character.
pub open spec fn correct_text() -> Seq<char> {
    "Correct!"@
}

/// The status text after a wrong character.
pub open spec fn wrong_text() -> Seq<char> {
    "Wrong character."@
}

/// The status text once the script is fully typed.
pub open spec fn victory_text() -> Seq<char> {
    "Victory! Press space to restart."@
}

/// The status text right after a restart.
pub open spec fn restart_text() -> Seq<char> {
    "Restarted. Keep typing."@
}

/// The state after a restart: the cursor returns to the start (so health
/// returns to full), the restart flag clears, and the script is kept.
pub open spec fn reset_view(v: GameView) -> GameView {
    GameView { cursor: 0, awaiting_restart: false, message: restart_text(), ..v }
}

/// The character the session expects next, if any.
pub open spec fn expected_of(v: GameView) -> Option<char> {
    if v.cursor < v.total() {
        Some(v.script[v.cursor])
    } else {
        None
    }
}

/// The one-step transition of the session on a submitted character, paired
/// with the reported outcome. The branches apply in this order of
/// precedence: awaiting-restart handling; line feed and carriage return;
/// the defensive completed-but-unflagged case; composition intermediates;
/// stray non-space whitespace; and finally the comparison itself.
pub open spec fn step(v: GameView, c: char) -> (GameView, StepResult) {
    if v.awaiting_restart {
        if c == ' ' {
            (reset_view(v), StepResult::Restarted)
        } else {
            (v, StepResult::Ignored)
        }
    } else if c == '\n' || c == '\r' {
        (v, StepResult::Ignored)
    } else if v.cursor >= v.total() {
        (GameView { awaiting_restart: true, message: victory_text(), ..v }, StepResult::Victory)
    } else if chars::is_composing(c) {
        (v, StepResult::Ignored)
    } else if chars::is_white_space(c) && c != ' ' && v.script[v.cursor] != ' ' {
        (v, StepResult::Ignored)
    } else if c == v.script[v.cursor] {
        if v.cursor + 1 == v.total() {
            (
                GameView {
                    cursor: v.cursor + 1,
                    awaiting_restart: true,
                    message: victory_text(),
                    ..v
                },
                StepResult::Victory,
            )
        } else {
            (
                GameView { cursor: v.cursor + 1, message: correct_text(), ..v },
                StepResult::Correct,
            )
        }
    } else {
        (GameView { message: wrong_text(), ..v }, StepResult::Wrong(c))
    }
}

/// The views of a sequence of character vectors.
pub open spec fn views_of(lines: Seq<Vec<char>>) -> Seq<Seq<char>> {
    lines.map_values(|l: Vec<char>| l@)
}

/// A typing session over a fixed script.
pub struct Game {
    text_chars: Vec<char>,
    char_meta: Vec<(usize, usize)>,
    line_lens: Vec<usize>,
    current_index: usize,
    awaiting_restart: bool,
    message: String,
}

impl View for Game {
    type V = GameView;

    closed spec fn view(&self) -> GameView {
        GameView {
            script: self.text_chars@,
            metas: self.char_meta@,
            line_lens: self.line_lens@,
            cursor: self.current_index as int,
            awaiting_restart: self.awaiting_restart,
            message: self.message@,
        }
    }
}

impl Game {
    /// Builds a session over the given lines: the script is the lines
    /// flattened in order, the cursor starts at 0 (full health), and a
    /// zero-length script counts as already complete.
    pub fn new(lines: &Vec<Vec<char>>) -> (g: Game)
        ensures
            g@.inv(),
            g@.script == flat_lines(views_of(lines@)),
            g@.line_lens == lens_of(views_of(lines@)),
            g@.cursor == 0,
            g@.awaiting_restart == (g@.script.len() == 0),
            g@.message == start_text(),
    {
        let ghost lvs: Seq<Seq<char>> = views_of(lines@);

        let mut line_lens: Vec<usize> = Vec::new();
        let mut k: usize = 0;
        while k < lines.len()
            invariant
                k <= lines.len(),
                lvs == views_of(lines@),
                line_lens@.len() == k,
                forall|i: int| 0 <= i < k ==> line_lens@[i] as nat == lvs[i].len(),
            decreases lines.len() - k,
        {
            line_lens.push(lines[k].len());
            k = k + 1;
        }
        proof {
            assert(line_lens@ =~= lens_of(lvs));
        }

        let mut chars: Vec<char> = Vec::new();
        let mut meta: Vec<(usize, usize)> = Vec::new();
        let mut li: usize = 0;
        proof {
            assert(lvs.take(0) =~= Seq::<Seq<char>>::empty());
            assert(lens_of(lvs).take(0) =~= Seq::<usize>::empty());
        }
        while li < lines.len()
            invariant
                li <= lines.len(),
                lvs == views_of(lines@),
                line_lens@ == lens_of(lvs),
                chars@ == flat_lines(lvs.take(li as int)),
                meta@ == metas_from(lens_of(lvs).take(li as int), 0),
                meta@.len() == chars@.len(),
            decreases lines.len() - li,
        {
            let line = &lines[li];
            let mut pos: usize = 0;
            proof {
                assert(chars@ =~= flat_lines(lvs.take(li as int)) + line@.take(0));
                assert(line_block(0usize, li as int) =~= Seq::<(usize, usize)>::empty());
                assert(meta@ =~= metas_from(lens_of(lvs).take(li as int), 0) + line_block(
                    0usize,
                    li as int,
                ));
            }
            while pos < line.len()
                invariant
                    pos <= line.len(),
                    li < lines.len(),
                    lvs == views_of(lines@),
                    line@ == lvs[li as int],
                    chars@ == flat_lines(lvs.take(li as int)) + line@.take(pos as int),
                    meta@ == metas_from(lens_of(lvs).take(li as int), 0) + line_block(
                        pos,
                        li as int,
                    ),
                    meta@.len() == chars@.len(),
                decreases line.len() - pos,
            {
                chars.push(line[pos]);
                meta.push((li, pos));
                proof {
                    assert(line@.take(pos + 1) =~= line@.take(pos as int).push(line@[pos as int]));
                    assert(line_block((pos + 1) as usize, li as int) =~= line_block(
                        pos,
                        li as int,
                    ).push((li, pos)));
                    assert(chars@ =~= flat_lines(lvs.take(li as int)) + line@.take(pos + 1));
                    assert(meta@ =~= metas_from(lens_of(lvs).take(li as int), 0) + line_block(
                        (pos + 1) as usize,
                        li as int,
                    ));
                }
                pos = pos + 1;
            }
            proof {
                lemma_flat_lines_snoc(lvs, li as int);
                lemma_metas_from_snoc(lens_of(lvs), 0, li as int);
                assert(line@.take(line@.len() as int) =~= lvs[li as int]);
                assert(line_block(pos, li as int) == line_block(lens_of(lvs)[li as int], li as int));
                assert(chars@ =~= flat_lines(lvs.take(li + 1)));
                assert(meta@ =~= metas_from(lens_of(lvs).take(li + 1), 0));
            }
            li = li + 1;
        }
        proof {
            assert(lvs.take(lines@.len() as int) =~= lvs);
            assert(lens_of(lvs).take(lines@.len() as int) =~= lens_of(lvs));
        }

        let done = chars.len() == 0;
        Game {
            text_chars: chars,
            char_meta: meta,
            line_lens,
            current_index: 0,
            awaiting_restart: done,
            message: String::from_str("Type the whole script to defeat the boss."),
        }
    }

    /// Returns the session to its initial round state: cursor 0, full
    /// health, restart flag cleared; the script is untouched.
    pub fn reset(&mut self)
        requires
            old(self)@.inv(),
        ensures
            final(self)@.inv(),
            final(self)@ == reset_view(old(self)@),
            health_points(final(self)@) == 100 * final(self)@.total(),
    {
        self.current_index = 0;
        self.awaiting_restart = false;
        self.message = String::from_str("Restarted. Keep typing.");
    }

    /// The character the session expects next, or `None` once the script is
    /// fully typed.
    pub fn expected_char(&self) -> (r: Option<char>)
        ensures
            r == expected_of(self@),
    {
        if self.current_index < self.text_chars.len() {
            Some(self.text_chars[self.current_index])
        } else {
            None
        }
    }

    /// Feeds one character to the session; the state moves and the outcome
    /// is reported exactly as [`step`] says. Total: every character maps to
    /// an outcome, and nothing here panics.
    pub fn process_char(&mut self, ch: char) -> (r: StepResult)
        requires
            old(self)@.inv(),
        ensures
            final(self)@.inv(),
            final(self)@ == step(old(self)@, ch).0,
            r == step(old(self)@, ch).1,
    {
        if self.awaiting_restart {
            if ch == ' ' {
                self.reset();
                return StepResult::Restarted;
            }
            return StepResult::Ignored;
        }

        if ch == '\n' || ch == '\r' {
            return StepResult::Ignored;
        }

        if self.current_index >= self.text_chars.len() {
            self.awaiting_restart = true;
            self.message = String::from_str("Victory! Press space to restart.");
            return StepResult::Victory;
        }

        let expected = self.text_chars[self.current_index];

        if Game::is_composing_char(ch) {
            return StepResult::Ignored;
        }

        if chars::white_space(ch) && ch != ' ' && expected != ' ' {
            return StepResult::Ignored;
        }

        if ch == expected {
            self.current_index = self.current_index + 1;
            if self.current_index >= self.text_chars.len() {
                self.awaiting_restart = true;
                self.message = String::from_str("Victory! Press space to restart.");
                StepResult::Victory
            } else {
                self.message = String::from_str("Correct!");
                StepResult::Correct
            }
        } else {
            self.message = String::from_str("Wrong character.");
            StepResult::Wrong(ch)
        }
    }

    /// The line the cursor stands in and how many of its characters are
    /// already typed; once the script is fully typed, the last line with its
    /// full length.
    pub fn line_state(&self) -> (r: (usize, usize))
        requires
            self@.inv(),
            self@.line_lens.len() > 0,
        ensures
            r == line_state_of(self@),
            r.0 < self@.line_lens.len(),
            r.1 <= self@.line_lens[r.0 as int],
    {
        if self.current_index >= self.text_chars.len() {
            let idx = self.line_lens.len() - 1;
            (idx, self.line_lens[idx])
        } else {
            proof {
                lemma_metas_valid(self@.line_lens, 0, self@.cursor);
            }
            self.char_meta[self.current_index]
        }
    }

    /// Whether the given character is a composition intermediate (see
    /// [`chars::is_composing`]).
    pub fn is_composing_char(ch: char) -> (r: bool)
        ensures
            r == chars::is_composing(ch),
    {
        let u = ch as u32;
        (0x1100 <= u && u <= 0x11FF) || (0x3130 <= u && u <= 0x318F) || (0xA960 <= u && u
            <= 0xA97F) || (0xD7B0 <= u && u <= 0xD7FF)
    }

    /// The index of the next expected character.
    pub fn cursor(&self) -> (r: usize)
        ensures
            r == self@.cursor,
    {
        self.current_index
    }

    /// The script length.
    pub fn total_chars(&self) -> (r: usize)
        ensures
            r == self@.total(),
    {
        self.text_chars.len()
    }

    /// How many lines the script has.
    pub fn line_count(&self) -> (r: usize)
        ensures
            r == self@.line_lens.len(),
    {
        self.line_lens.len()
    }

    /// Whether the round is over and a space is awaited.
    pub fn is_awaiting_restart(&self) -> (r: bool)
        ensures
            r == self@.awaiting_restart,
    {
        self.awaiting_restart
    }

    /// The latest status text.
    pub fn message(&self) -> (r: &String)
        ensures
            r@ == self@.message,
    {
        &self.message
    }

    /// Boss health as the exact fraction `r.0 / r.1` of the 100-point
    /// scale's per-character slice: the health percentage is
    /// `100 * r.0 / r.1` when the script is non-empty, and the pair equals
    /// (characters still to type, script length).
    pub fn health_ratio(&self) -> (r: (usize, usize))
        requires
            self@.inv(),
        ensures
            r.0 == self@.total() - self@.cursor,
            r.1 == self@.total(),
            health_points(self@) == 100 * r.0,
    {
        (self.text_chars.len() - self.current_index, self.text_chars.len())
    }
}

/// Where the cursor stands as (line index, characters typed in that line).
pub open spec fn line_state_of(v: GameView) -> (usize, usize) {
    if v.cursor >= v.total() {
        (((v.line_lens.len() - 1) as usize), v.line_lens.last())
    } else {
        v.metas[v.cursor]
    }
}

} // verus!
