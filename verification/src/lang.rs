//! Parsing of language files and the word source for tests. A language file
//! is a header of flag lines, a delimiter line, and then one word per line;
//! the host reads the file and hands its lines here, and reports errors back
//! to the user.

use vstd::prelude::*;

verus! {

/// Error found while interpreting a language file's header.
#[derive(Clone, Copy, PartialEq, Eq, Structural, Debug)]
pub enum LangError {
    /// The header asks both for a single line and for the whole list.
    ConflictingSelection,
}

/// The line separating the header from the word list.
pub open spec fn delimiter_line() -> Seq<char> {
    "-----BEGIN WORDLIST-----"@
}

/// The number of header lines: everything before the first delimiter line,
/// or the whole file when no delimiter occurs.
pub open spec fn header_len(lines: Seq<Seq<char>>) -> int
    decreases lines.len(),
{
    if lines.len() == 0 {
        0
    } else if lines[0] == delimiter_line() {
        0
    } else {
        1 + header_len(lines.drop_first())
    }
}

/// Whether a flag of the given name is set: some header line spells it.
pub open spec fn flag_set(lines: Seq<Seq<char>>, name: Seq<char>) -> bool {
    exists|j: int| 0 <= j < header_len(lines) && lines[j] == name
}

/// The word list: every line after the first delimiter line, or nothing
/// when no delimiter occurs.
pub open spec fn word_lines(lines: Seq<Seq<char>>) -> Seq<Seq<char>> {
    if header_len(lines) < lines.len() {
        lines.skip(header_len(lines) + 1)
    } else {
        Seq::empty()
    }
}

/// The header ends exactly at the first delimiter line.
proof fn lemma_header_len_at_first_delimiter(lines: Seq<Seq<char>>, k: int)
    requires
        0 <= k <= lines.len(),
        forall|j: int| 0 <= j < k ==> lines[j] != delimiter_line(),
        k < lines.len() ==> lines[k] == delimiter_line(),
    ensures
        header_len(lines) == k,
    decreases lines.len(),
{
    if lines.len() == 0 {
    } else if k == 0 {
    } else {
        assert forall|j: int| 0 <= j < k - 1 implies lines.drop_first()[j] != delimiter_line() by {
            assert(lines.drop_first()[j] == lines[j + 1]);
        }
        if k - 1 < lines.drop_first().len() {
            assert(lines.drop_first()[k - 1] == lines[k]);
        }
        lemma_header_len_at_first_delimiter(lines.drop_first(), k - 1);
    }
}

/// Relies on str's PartialEq implementation: equality of the two strings'
/// character sequences.
#[verifier::external_body]
fn str_eq(a: &str, b: &str) -> (r: bool)
    ensures
        r == (a@ == b@),
{
    a == b
}

/// Relies on rand::random_range: a value sampled from the given range,
/// which is non-empty by the precondition.
#[verifier::external_body]
fn random_index(n: usize) -> (r: usize)
    requires
        n > 0,
    ensures
        r < n,
{
    rand::random_range(0..n)
}

/// Representation of a language file.
pub struct Lang {
    /// All words are to be tested in order.
    pub inorder: bool,
    /// Where an in-order test would continue from.
    pub inorder_index: usize,
    /// The words are already punctuated.
    pub punctuated: bool,
    /// Only a single line is to be tested.
    pub select_one: bool,
    /// The entire language is to be tested.
    pub select_all: bool,
    /// The word list itself.
    pub words: Vec<String>,
}

impl Lang {
    /// Interpret a language file's lines: header flags up to the delimiter
    /// line, then one word per line. Unknown header lines are ignored. A
    /// header asking both for a single line and for the whole list is
    /// rejected.
    pub fn from_lines(lines: &Vec<String>) -> (r: Result<Lang, LangError>)
        ensures
            ({
                let l = lines.deep_view();
                match r {
                    Ok(lang) => {
                        &&& lang.inorder == flag_set(l, "inorder"@)
                        &&& lang.punctuated == flag_set(l, "punctuated"@)
                        &&& lang.select_one == flag_set(l, "select_one"@)
                        &&& lang.select_all == flag_set(l, "select_all"@)
                        &&& !(lang.select_one && lang.select_all)
                        &&& lang.inorder_index == 0
                        &&& lang.words.deep_view() == word_lines(l)
                    },
                    Err(e) => {
                        &&& e == LangError::ConflictingSelection
                        &&& flag_set(l, "select_one"@)
                        &&& flag_set(l, "select_all"@)
                    },
                }
            }),
    {
        let ghost l = lines.deep_view();
        let mut s = Lang {
            inorder: false,
            inorder_index: 0,
            punctuated: false,
            select_one: false,
            select_all: false,
            words: Vec::new(),
        };
        let mut header = true;
        let n = lines.len();
        let mut i: usize = 0;
        while i < n
            invariant
                i <= n,
                n == lines@.len(),
                l == lines.deep_view(),
                s.inorder_index == 0,
                header ==> forall|j: int| 0 <= j < i ==> l[j] != delimiter_line(),
                header ==> s.inorder == (exists|j: int| 0 <= j < i && l[j] == "inorder"@),
                header ==> s.punctuated == (exists|j: int| 0 <= j < i && l[j] == "punctuated"@),
                header ==> s.select_one == (exists|j: int| 0 <= j < i && l[j] == "select_one"@),
                header ==> s.select_all == (exists|j: int| 0 <= j < i && l[j] == "select_all"@),
                header ==> s.words@.len() == 0,
                !header ==> 0 <= header_len(l) < i,
                !header ==> l[header_len(l)] == delimiter_line(),
                !header ==> s.inorder == flag_set(l, "inorder"@),
                !header ==> s.punctuated == flag_set(l, "punctuated"@),
                !header ==> s.select_one == flag_set(l, "select_one"@),
                !header ==> s.select_all == flag_set(l, "select_all"@),
                !header ==> s.words.deep_view() == l.subrange(header_len(l) + 1, i as int),
            decreases n - i,
        {
            let line = &lines[i];
            proof {
                reveal_strlit("-----BEGIN WORDLIST-----");
                reveal_strlit("inorder");
                reveal_strlit("punctuated");
                reveal_strlit("select_one");
                reveal_strlit("select_all");
                // the two selection flags have the same length; point at a
                // differing character so they are known to be distinct
                assert("select_one"@[7] == 'o');
                assert("select_all"@[7] == 'a');
                assert(l[i as int] == line@);
            }
            if header {
                if str_eq(line.as_str(), "-----BEGIN WORDLIST-----") {
                    header = false;
                    proof {
                        lemma_header_len_at_first_delimiter(l, i as int);
                        assert(s.words.deep_view() =~= l.subrange(header_len(l) + 1, i + 1));
                    }
                } else {
                    // Header flags; anything else in the header is ignored.
                    if str_eq(line.as_str(), "inorder") {
                        s.inorder = true;
                    } else if str_eq(line.as_str(), "punctuated") {
                        s.punctuated = true;
                    } else if str_eq(line.as_str(), "select_one") {
                        s.select_one = true;
                    } else if str_eq(line.as_str(), "select_all") {
                        s.select_all = true;
                    }
                }
            } else {
                let ghost before = s.words.deep_view();
                s.words.push(line.clone());
                proof {
                    assert(s.words.deep_view() =~= before.push(line@));
                    assert(s.words.deep_view() =~= l.subrange(header_len(l) + 1, i + 1));
                }
            }
            i = i + 1;
        }
        proof {
            if header {
                lemma_header_len_at_first_delimiter(l, n as int);
                assert(s.words.deep_view() =~= word_lines(l));
            } else {
                assert(s.words.deep_view() =~= word_lines(l));
            }
        }
        // The two selection modes cannot be combined.
        if s.select_one && s.select_all {
            return Err(LangError::ConflictingSelection);
        }
        Ok(s)
    }

    /// Draw `n` words for a test, each picked at random from this language's
    /// word list, with repetition allowed.
    pub fn gen_words(&self, n: usize) -> (r: Vec<String>)
        requires
            self.words@.len() > 0,
        ensures
            r@.len() == n,
            forall|i: int| 0 <= i < n ==> self.words@.contains(#[trigger] r@[i]),
    {
        let mut r: Vec<String> = Vec::new();
        let mut k: usize = 0;
        while k < n
            invariant
                k <= n,
                r@.len() == k,
                self.words@.len() > 0,
                forall|i: int| 0 <= i < k ==> self.words@.contains(#[trigger] r@[i]),
            decreases n - k,
        {
            let idx = random_index(self.words.len());
            let w = self.words[idx].clone();
            r.push(w);
            k = k + 1;
        }
        r
    }
}

} // verus!
