//! Key events: the characters a test records, the two delete sentinels, and
//! the replay oracle that decides whether a logged key sequence spells a word.

use vstd::prelude::*;

verus! {

/// Sentinel character recorded when a single character is deleted.
pub const BKSPC: char = '\u{8}';

/// Sentinel character recorded when an entire word is deleted.
pub const WORD_BKSPC: char = '\u{18}';

/// True for the two reserved sentinel codes, which are never typed directly.
pub open spec fn is_sentinel(c: char) -> bool {
    c == BKSPC || c == WORD_BKSPC
}

/// One logical input event, already reduced by the host from raw key codes:
/// a printable character (space included), a single-character deletion, or a
/// whole-word deletion.
#[derive(Clone, Copy, PartialEq, Eq, Structural, Debug)]
pub enum KeyInput {
    /// A printable character was pressed; `Press(' ')` is the word separator.
    Press(char),
    /// Delete the last typed character.
    Delete,
    /// Delete the whole current word.
    DeleteWord,
}

/// A single recorded keypress: the key's character (or delete sentinel)
/// together with the moment it was recorded.
pub struct Keypress {
    /// The character the press stands for.
    pub key: char,
    /// When the key was pressed.
    pub time: std::time::Instant,
}

/// The result of replaying a key log: each ordinary character is appended,
/// a space is skipped, [`BKSPC`] removes the last accumulated character (a
/// no-op on an empty accumulator), and [`WORD_BKSPC`] resets the accumulator.
pub open spec fn replay(keys: Seq<char>) -> Seq<char>
    decreases keys.len(),
{
    if keys.len() == 0 {
        Seq::empty()
    } else {
        let prev = replay(keys.drop_last());
        let k = keys.last();
        if k == ' ' {
            prev
        } else if k == BKSPC {
            if prev.len() == 0 {
                prev
            } else {
                prev.drop_last()
            }
        } else if k == WORD_BKSPC {
            Seq::empty()
        } else {
            prev.push(k)
        }
    }
}

/// Replaying a key log is a deterministic computation: logs with the same
/// characters in the same order always replay to the same accumulated string,
/// so any predicate derived from a replay yields the same answer every time
/// it is evaluated over the same log.
pub proof fn lemma_replay_deterministic(keys1: Seq<char>, keys2: Seq<char>)
    requires
        keys1 =~= keys2,
    ensures
        replay(keys1) == replay(keys2),
{
}

/// Declares std::time::Instant so a keypress can carry its timestamp; the
/// value is opaque and nothing is ever read from it here.
#[verifier::external_type_specification]
#[verifier::external_body]
pub struct ExInstant(std::time::Instant);

/// Relies on std::time::Instant::now: an opaque reading of the monotonic
/// clock. Nothing is promised of the value; it is only stored.
#[verifier::external_body]
fn now_instant() -> std::time::Instant {
    std::time::Instant::now()
}

impl Keypress {
    /// Create a keypress from a character, stamped with the current time.
    pub fn from_chr(key: char) -> (r: Self)
        ensures
            r.key == key,
    {
        Self { key, time: now_instant() }
    }
}

} // verus!
