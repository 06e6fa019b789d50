//! One test word: its target text, its append-only keystroke log, and the
//! incrementally maintained render classification of the typed prefix.

use vstd::prelude::*;

use crate::keys::{replay, Keypress, BKSPC, WORD_BKSPC};

verus! {

/// The render class of one character cell.
#[derive(Clone, Copy, PartialEq, Eq, Structural, Debug)]
pub enum CharClass {
    /// Typed, and it matched the target at its position.
    Correct,
    /// Typed, and it did not match (or overran) the target.
    Incorrect,
    /// Part of the target not yet typed.
    Untyped,
    /// The cell the next keystroke lands on.
    Cursor,
}

/// One classified typed character: the character that was pressed together
/// with whether it matched the target.
#[derive(Clone, Copy, PartialEq, Eq, Structural, Debug)]
pub struct ClassedChar {
    /// The character that was actually pressed.
    pub chr: char,
    /// Whether the press matched the target at its position.
    pub class: CharClass,
}

/// The mathematical model of a [`TestWord`]: the target characters, the
/// characters of the logged keypresses in order, and the classification of
/// the typed prefix.
pub struct SlotModel {
    /// The target word's characters.
    pub target: Seq<char>,
    /// The character of every logged keypress, in the order recorded.
    pub keys: Seq<char>,
    /// One entry per uncancelled visible keystroke.
    pub classes: Seq<ClassedChar>,
}

/// A slot counts as typed when its last logged key is a space, or when
/// replaying its whole log spells the target exactly.
pub open spec fn spec_typed(s: SlotModel) -> bool {
    (s.keys.len() > 0 && s.keys.last() == ' ') || replay(s.keys) == s.target
}

/// The typed predicate is decided by the log's characters and the target
/// alone: two slots whose logs hold the same characters against the same
/// target are typed alike, however and whenever each log was assembled, and
/// replaying either log yields the same verdict every time.
pub proof fn lemma_typed_deterministic(a: SlotModel, b: SlotModel)
    requires
        a.keys =~= b.keys,
        a.target =~= b.target,
    ensures
        spec_typed(a) == spec_typed(b),
        (replay(a.keys) == a.target) == (replay(b.keys) == b.target),
{
    crate::keys::lemma_replay_deterministic(a.keys, b.keys);
}

/// The classification entry produced by pressing `chr` when `classes` entries
/// are already present: correct only when the press lands inside the target
/// and matches it there.
pub open spec fn spec_classify(target: Seq<char>, classes: Seq<ClassedChar>, chr: char) -> ClassedChar {
    if classes.len() < target.len() && chr == target[classes.len() as int] {
        ClassedChar { chr, class: CharClass::Correct }
    } else {
        ClassedChar { chr, class: CharClass::Incorrect }
    }
}

/// The lower-case folding of a character sequence, as the standard library
/// computes it. Its value is fixed by the folding tables alone, so it is
/// named rather than spelled out.
pub uninterp spec fn lower_of(s: Seq<char>) -> Seq<char>;

/// Relies on str::to_lowercase: the result depends only on the input's
/// characters, by Unicode's folding tables.
#[verifier::external_body]
pub(crate) fn lowercase_chars(s: &String) -> (r: Vec<char>)
    ensures
        r@ == lower_of(s@),
{
    s.to_lowercase().chars().collect()
}

/// A single test word with its keypress log and render classification.
pub struct TestWord {
    word: Vec<char>,
    presses: Vec<Keypress>,
    classification: Vec<ClassedChar>,
}

impl View for TestWord {
    type V = SlotModel;

    closed spec fn view(&self) -> SlotModel {
        SlotModel {
            target: self.word@,
            keys: self.presses@.map_values(|k: Keypress| k.key),
            classes: self.classification@,
        }
    }
}

/// Compare two character vectors element by element.
fn chars_eq(a: &Vec<char>, b: &Vec<char>) -> (r: bool)
    ensures
        r == (a@ == b@),
{
    if a.len() != b.len() {
        assert(a@ != b@);
        return false;
    }
    let n = a.len();
    let mut i: usize = 0;
    while i < n
        invariant
            i <= n,
            n == a@.len() == b@.len(),
            forall|j: int| 0 <= j < i ==> a@[j] == b@[j],
        decreases n - i,
    {
        if a[i] != b[i] {
            return false;
        }
        i = i + 1;
    }
    proof {
        assert(a@ =~= b@);
    }
    true
}

impl TestWord {
    /// Create a fresh slot for a target word: empty log, empty classification.
    pub fn new(word: Vec<char>) -> (r: Self)
        ensures
            r@.target == word@,
            r@.keys == Seq::<char>::empty(),
            r@.classes == Seq::<ClassedChar>::empty(),
    {
        let r = TestWord { word, presses: Vec::new(), classification: Vec::new() };
        proof {
            assert(r@.keys =~= Seq::<char>::empty());
        }
        r
    }

    /// Append one keypress to the log; the classification is untouched.
    pub fn push_key(&mut self, key: char)
        ensures
            final(self)@.target == old(self)@.target,
            final(self)@.keys == old(self)@.keys.push(key),
            final(self)@.classes == old(self)@.classes,
    {
        self.presses.push(Keypress::from_chr(key));
        proof {
            assert(final(self)@.keys =~= old(self)@.keys.push(key));
        }
    }

    /// Record a printable character: log it and append its classification
    /// entry. A press always produces a visible glyph, even past the target's
    /// length, so an entry is appended unconditionally.
    pub fn record_char(&mut self, chr: char)
        ensures
            final(self)@.target == old(self)@.target,
            final(self)@.keys == old(self)@.keys.push(chr),
            final(self)@.classes == old(self)@.classes.push(
                spec_classify(old(self)@.target, old(self)@.classes, chr),
            ),
    {
        self.presses.push(Keypress::from_chr(chr));
        let len = self.classification.len();
        if len < self.word.len() && chr == self.word[len] {
            self.classification.push(ClassedChar { chr, class: CharClass::Correct });
        } else {
            self.classification.push(ClassedChar { chr, class: CharClass::Incorrect });
        }
        proof {
            assert(final(self)@.keys =~= old(self)@.keys.push(chr));
        }
    }

    /// Remove the last classification entry; a no-op when none is present.
    /// The log is untouched: the deletion itself is logged separately.
    pub fn pop_classification(&mut self)
        ensures
            final(self)@.target == old(self)@.target,
            final(self)@.keys == old(self)@.keys,
            final(self)@.classes == (if old(self)@.classes.len() == 0 {
                old(self)@.classes
            } else {
                old(self)@.classes.drop_last()
            }),
    {
        let _ = self.classification.pop();
    }

    /// Reset the classification to empty. The log is untouched.
    pub fn clear_classification(&mut self)
        ensures
            final(self)@.target == old(self)@.target,
            final(self)@.keys == old(self)@.keys,
            final(self)@.classes == Seq::<ClassedChar>::empty(),
    {
        self.classification = Vec::new();
    }

    /// How many classification entries the slot currently holds.
    pub fn classification_len(&self) -> (r: usize)
        ensures
            r == self@.classes.len(),
    {
        self.classification.len()
    }

    /// The classification entry at `i`.
    pub fn classification_at(&self, i: usize) -> (r: ClassedChar)
        requires
            i < self@.classes.len(),
        ensures
            r == self@.classes[i as int],
    {
        self.classification[i]
    }

    /// The length of the target word.
    pub fn target_len(&self) -> (r: usize)
        ensures
            r == self@.target.len(),
    {
        self.word.len()
    }

    /// The target character at `i`.
    pub fn target_at(&self, i: usize) -> (r: char)
        requires
            i < self@.target.len(),
        ensures
            r == self@.target[i as int],
    {
        self.word[i]
    }

    /// How many keypresses the log holds.
    pub fn press_count(&self) -> (r: usize)
        ensures
            r == self@.keys.len(),
    {
        self.presses.len()
    }

    /// The character of the logged keypress at `i`.
    pub fn press_at(&self, i: usize) -> (r: char)
        requires
            i < self@.keys.len(),
        ensures
            r == self@.keys[i as int],
    {
        self.presses[i].key
    }

    /// Is the word fully and correctly typed: replay the entire keystroke
    /// log and compare the accumulated characters against the target.
    pub fn is_correct(&self) -> (r: bool)
        ensures
            r == (replay(self@.keys) == self@.target),
    {
        let ghost keys = self@.keys;
        let mut s: Vec<char> = Vec::new();
        let n = self.presses.len();
        let mut i: usize = 0;
        proof {
            assert(s@ =~= replay(keys.take(0)));
        }
        while i < n
            invariant
                i <= n,
                n == self.presses@.len(),
                keys == self@.keys,
                keys.len() == n,
                s@ == replay(keys.take(i as int)),
            decreases n - i,
        {
            proof {
                assert(keys.take(i + 1).drop_last() =~= keys.take(i as int));
                assert(keys.take(i + 1).last() == keys[i as int]);
            }
            let k = self.presses[i].key;
            assert(k == keys[i as int]);
            if k == ' ' {
            } else if k == BKSPC {
                let _ = s.pop();
            } else if k == WORD_BKSPC {
                s = Vec::new();
                proof {
                    assert(s@ =~= Seq::<char>::empty());
                }
            } else {
                s.push(k);
            }
            i = i + 1;
        }
        proof {
            assert(keys.take(n as int) =~= keys);
        }
        chars_eq(&s, &self.word)
    }

    /// Does the slot count as typed: its last key is a space, or the replay
    /// of its log spells the target.
    pub fn is_typed(&self) -> (r: bool)
        ensures
            r == spec_typed(self@),
    {
        if self.presses.len() > 0 {
            let lp = self.presses[self.presses.len() - 1].key;
            assert(lp == self@.keys.last());
            if lp == ' ' {
                return true;
            }
        }
        self.is_correct()
    }
}

} // verus!
