//! Positional feedback for one guess: the three hint codes, their one
//! character text encoding, and the `WordleHint` record pairing a guess with
//! its codes.

use vstd::prelude::*;

use crate::common::WORD_LENGTH;
use crate::error::WordleError;

verus! {

/// Feedback for one letter position.
#[derive(Clone, Copy, Debug, PartialEq, Eq, Structural)]
pub enum HintType {
    /// The guessed letter stands in the right position.
    Correct,
    /// The guessed letter exists elsewhere in the answer.
    Present,
    /// The guessed letter has no remaining unaccounted occurrence.
    Absent,
}

/// The one-character text encoding of a hint code.
pub open spec fn hint_char(h: HintType) -> char {
    match h {
        HintType::Correct => 'O',
        HintType::Present => '~',
        HintType::Absent => 'X',
    }
}

/// Decoding of one hint character; anything but the three markers is
/// invalid.
pub open spec fn decode_hint_char(c: char) -> Option<HintType> {
    if c == 'O' {
        Some(HintType::Correct)
    } else if c == '~' {
        Some(HintType::Present)
    } else if c == 'X' {
        Some(HintType::Absent)
    } else {
        None
    }
}

impl HintType {
    /// Decodes one hint character, rejecting anything but the three markers.
    fn from_char(value: char) -> (r: Result<HintType, WordleError>)
        ensures
            match decode_hint_char(value) {
                Some(h) => r == Ok::<HintType, WordleError>(h),
                None => r == Err::<HintType, WordleError>(WordleError::InvalidHintCharacter),
            },
    {
        if value == 'O' {
            Ok(HintType::Correct)
        } else if value == '~' {
            Ok(HintType::Present)
        } else if value == 'X' {
            Ok(HintType::Absent)
        } else {
            Err(WordleError::InvalidHintCharacter)
        }
    }

    /// Encodes this hint code as its text marker.
    pub fn to_char(self) -> (c: char)
        ensures
            c == hint_char(self),
    {
        match self {
            HintType::Correct => 'O',
            HintType::Present => '~',
            HintType::Absent => 'X',
        }
    }
}

/// The ASCII upper-case form of a letter; anything else is unchanged.
pub open spec fn upper_char(c: char) -> char {
    if 'a' <= c && c <= 'z' {
        ((c as u8 - 0x20) as u8) as char
    } else {
        c
    }
}

/// The colored square shown for one hint code.
pub open spec fn square_char(h: HintType) -> char {
    match h {
        HintType::Correct => '🟩',
        HintType::Present => '🟨',
        HintType::Absent => '⬜',
    }
}

/// The display line of a word: its letters upper-cased, space-separated.
pub open spec fn letters_line(w: Seq<char>) -> Seq<char>
    decreases w.len(),
{
    if w.len() == 0 {
        Seq::empty()
    } else if w.len() == 1 {
        seq![upper_char(w[0])]
    } else {
        letters_line(w.drop_last()) + seq![' ', upper_char(w.last())]
    }
}

/// The display line of a hint sequence: its squares, space-separated.
pub open spec fn squares_line(hs: Seq<HintType>) -> Seq<char>
    decreases hs.len(),
{
    if hs.len() == 0 {
        Seq::empty()
    } else if hs.len() == 1 {
        seq![square_char(hs[0])]
    } else {
        squares_line(hs.drop_last()) + seq![' ', square_char(hs.last())]
    }
}

fn to_upper(c: char) -> (r: char)
    ensures
        r == upper_char(c),
{
    if 'a' <= c && c <= 'z' {
        ((c as u8) - 0x20) as char
    } else {
        c
    }
}

fn to_square(h: HintType) -> (c: char)
    ensures
        c == square_char(h),
{
    match h {
        HintType::Correct => '🟩',
        HintType::Present => '🟨',
        HintType::Absent => '⬜',
    }
}

/// An ordered sequence of hint codes paired with the guess word that produced
/// them.  Immutable once created.
#[derive(Clone, Debug)]
pub struct WordleHint {
    /// The guess that was graded.
    pub word: String,
    /// One hint code per letter position of the answer.
    pub hints: Vec<HintType>,
}

impl WordleHint {
    /// Structural invariant: exactly one hint code per letter position.
    pub open spec fn wf(self) -> bool {
        self.hints@.len() == WORD_LENGTH
    }

    /// All positions are marked Correct.
    pub open spec fn fully_correct(self) -> bool {
        forall|i: int| 0 <= i < self.hints@.len() ==> self.hints@[i] == HintType::Correct
    }

    /// Pairs a guess with its hint codes.
    pub fn new(word: String, hints: Vec<HintType>) -> (h: WordleHint)
        requires
            hints@.len() == WORD_LENGTH,
        ensures
            h.word@ == word@,
            h.hints@ == hints@,
            h.wf(),
    {
        WordleHint { word, hints }
    }

    /// The synthetic all-Correct feedback used for already-solved games.
    pub fn new_all_correct(word: String) -> (h: WordleHint)
        ensures
            h.word@ == word@,
            h.wf(),
            h.fully_correct(),
    {
        let mut hints: Vec<HintType> = Vec::new();
        let mut i: usize = 0;
        while i < WORD_LENGTH
            invariant
                i <= WORD_LENGTH,
                hints@.len() == i,
                forall|j: int| 0 <= j < i ==> hints@[j] == HintType::Correct,
            decreases WORD_LENGTH - i,
        {
            hints.push(HintType::Correct);
            i += 1;
        }
        WordleHint { word, hints }
    }

    /// Decodes a textual hint record into a `WordleHint`.
    ///
    /// The word must have exactly `WORD_LENGTH` characters and the hint
    /// string one marker per character of the word; any other character than
    /// the three markers is rejected.
    pub fn new_hint(word: String, hints: String) -> (r: Result<WordleHint, WordleError>)
        ensures
            word@.len() != WORD_LENGTH ==> r == Err::<WordleHint, WordleError>(
                WordleError::InvalidInputLength,
            ),
            word@.len() == WORD_LENGTH && hints@.len() != word@.len() ==> r == Err::<
                WordleHint,
                WordleError,
            >(WordleError::InvalidInputLength),
            word@.len() == WORD_LENGTH && hints@.len() == word@.len() && (exists|i: int|
                0 <= i < hints@.len() && decode_hint_char(hints@[i]) is None) ==> r == Err::<
                WordleHint,
                WordleError,
            >(WordleError::InvalidHintCharacter),
            r matches Ok(h) <==> word@.len() == WORD_LENGTH && hints@.len() == word@.len()
                && (forall|i: int| 0 <= i < hints@.len() ==> decode_hint_char(hints@[i]) is Some),
            r matches Ok(h) ==> {
                &&& h.wf()
                &&& h.word@ == word@
                &&& forall|i: int|
                    0 <= i < WORD_LENGTH ==> decode_hint_char(hints@[i]) == Some(h.hints@[i])
            },
    {
        if word.as_str().unicode_len() != WORD_LENGTH {
            return Err(WordleError::InvalidInputLength);
        }
        let hint_str = hints.as_str();
        if hint_str.unicode_len() != WORD_LENGTH {
            return Err(WordleError::InvalidInputLength);
        }
        let mut codes: Vec<HintType> = Vec::new();
        let mut i: usize = 0;
        while i < WORD_LENGTH
            invariant
                i <= WORD_LENGTH,
                word@.len() == WORD_LENGTH,
                hint_str@ == hints@,
                hints@.len() == WORD_LENGTH,
                codes@.len() == i,
                forall|j: int| 0 <= j < i ==> decode_hint_char(hints@[j]) == Some(codes@[j]),
            decreases WORD_LENGTH - i,
        {
            match HintType::from_char(hint_str.get_char(i)) {
                Ok(h) => codes.push(h),
                Err(e) => {
                    return Err(e);
                },
            }
            i += 1;
        }
        Ok(WordleHint { word, hints: codes })
    }

    /// The hint codes encoded as a string of markers, one per position.
    pub fn hints(&self) -> (s: String)
        ensures
            s@ == self.hints@.map_values(|h: HintType| hint_char(h)),
    {
        let mut s = String::new();
        let mut i: usize = 0;
        while i < self.hints.len()
            invariant
                i <= self.hints@.len(),
                s@.len() == i,
                forall|j: int| 0 <= j < i ==> s@[j] == hint_char(self.hints@[j]),
            decreases self.hints@.len() - i,
        {
            s.push(self.hints[i].to_char());
            i += 1;
        }
        proof {
            assert(s@ =~= self.hints@.map_values(|h: HintType| hint_char(h)));
        }
        s
    }

    /// The letters of the guess zipped with the text markers of their hint
    /// codes.
    pub fn word_hint_pairs(&self) -> (r: Vec<(char, char)>)
        ensures
            r@.len() == (if self.word@.len() <= self.hints@.len() {
                self.word@.len()
            } else {
                self.hints@.len()
            }),
            forall|i: int|
                0 <= i < r@.len() ==> (#[trigger] r@[i]) == (
                    self.word@[i],
                    hint_char(self.hints@[i]),
                ),
    {
        let word = self.word.as_str();
        let wl = word.unicode_len();
        let hl = self.hints.len();
        let n = if wl <= hl {
            wl
        } else {
            hl
        };
        let mut r: Vec<(char, char)> = Vec::new();
        let mut i: usize = 0;
        while i < n
            invariant
                i <= n,
                word@ == self.word@,
                n <= self.word@.len(),
                n <= self.hints@.len(),
                n == (if self.word@.len() <= self.hints@.len() {
                    self.word@.len()
                } else {
                    self.hints@.len()
                }),
                r@.len() == i,
                forall|j: int|
                    0 <= j < i ==> (#[trigger] r@[j]) == (
                        self.word@[j],
                        hint_char(self.hints@[j]),
                    ),
            decreases n - i,
        {
            r.push((word.get_char(i), self.hints[i].to_char()));
            i += 1;
        }
        r
    }

    /// The two-line display form of this feedback: the upper-cased letters
    /// of the guess over one colored square per hint code.
    pub fn visualize_hint(&self) -> (s: String)
        ensures
            s@ == letters_line(self.word@) + seq!['\n'] + squares_line(self.hints@),
    {
        let word = self.word.as_str();
        let wl = word.unicode_len();
        let mut s = String::new();
        let mut i: usize = 0;
        while i < wl
            invariant
                i <= wl,
                word@ == self.word@,
                wl == self.word@.len(),
                s@ == letters_line(self.word@.take(i as int)),
            decreases wl - i,
        {
            let ghost prefix = s@;
            if i > 0 {
                s.push(' ');
            }
            s.push(to_upper(word.get_char(i)));
            proof {
                let taken = self.word@.take(i + 1);
                assert(taken.drop_last() =~= self.word@.take(i as int));
                assert(taken.last() == self.word@[i as int]);
                if i == 0 {
                    assert(s@ =~= letters_line(taken));
                } else {
                    assert(s@ =~= letters_line(taken.drop_last()) + seq![
                        ' ',
                        upper_char(taken.last()),
                    ]);
                }
            }
            i += 1;
        }
        proof {
            assert(self.word@.take(wl as int) =~= self.word@);
        }
        s.push('\n');
        let ghost head = s@;
        proof {
            assert(head =~= letters_line(self.word@) + seq!['\n']);
        }
        let hl = self.hints.len();
        let mut k: usize = 0;
        while k < hl
            invariant
                k <= hl,
                hl == self.hints@.len(),
                s@ == head + squares_line(self.hints@.take(k as int)),
                head == letters_line(self.word@) + seq!['\n'],
            decreases hl - k,
        {
            if k > 0 {
                s.push(' ');
            }
            s.push(to_square(self.hints[k]));
            proof {
                let taken = self.hints@.take(k + 1);
                assert(taken.drop_last() =~= self.hints@.take(k as int));
                assert(taken.last() == self.hints@[k as int]);
                if k == 0 {
                    assert(s@ =~= head + squares_line(taken));
                } else {
                    assert(s@ =~= head + (squares_line(taken.drop_last()) + seq![
                        ' ',
                        square_char(taken.last()),
                    ]));
                }
            }
            k += 1;
        }
        proof {
            assert(self.hints@.take(hl as int) =~= self.hints@);
        }
        s
    }

    /// Whether this feedback marks the game as solved.
    pub fn is_fully_correct(&self) -> (r: bool)
        ensures
            r == self.fully_correct(),
    {
        let mut i: usize = 0;
        while i < self.hints.len()
            invariant
                i <= self.hints@.len(),
                forall|j: int| 0 <= j < i ==> self.hints@[j] == HintType::Correct,
            decreases self.hints@.len() - i,
        {
            if self.hints[i] != HintType::Correct {
                proof {
                    assert(self.hints@[i as int] != HintType::Correct);
                }
                return false;
            }
            i += 1;
        }
        true
    }
}

} // verus!
