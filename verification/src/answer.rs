//! The grammar of an answer to a yes/no question.

use vstd::prelude::*;
use vstd::string::*;

verus! {

/// The lower-case form of an ASCII capital letter; any other character is itself.
pub open spec fn ascii_lower(c: char) -> char {
    if 'A' <= c && c <= 'Z' {
        ((c as u32) + 32) as char
    } else {
        c
    }
}

/// `line` without its line terminator: one trailing line feed, together with a
/// carriage return directly before it, is dropped.
pub open spec fn chomp(line: Seq<char>) -> Seq<char> {
    if line.len() >= 2 && line[line.len() - 2] == '\r' && line.last() == '\n' {
        line.take(line.len() - 2)
    } else if line.len() >= 1 && line.last() == '\n' {
        line.take(line.len() - 1)
    } else {
        line
    }
}

/// Whether `word` is `token` up to the case of its ASCII letters. `token` is
/// given in lower case.
pub open spec fn is_token(word: Seq<char>, token: Seq<char>) -> bool {
    &&& word.len() == token.len()
    &&& forall|i: int| 0 <= i < word.len() ==> ascii_lower(#[trigger] word[i]) == token[i]
}

/// Whether `word` says yes: `y` or `yes`, in any casing.
pub open spec fn is_affirmative(word: Seq<char>) -> bool {
    is_token(word, seq!['y']) || is_token(word, seq!['y', 'e', 's'])
}

/// Whether `word` says no: `n` or `no`, in any casing.
pub open spec fn is_negative(word: Seq<char>) -> bool {
    is_token(word, seq!['n']) || is_token(word, seq!['n', 'o'])
}

/// What a line of input answers to a yes/no question whose default is
/// `default`: nothing but the line terminator takes the default, an
/// affirmative word is yes, a negative word is no, and anything else is no
/// answer at all.
pub open spec fn answer_of(line: Seq<char>, default: bool) -> Option<bool> {
    let word = chomp(line);
    if word.len() == 0 {
        Some(default)
    } else if is_affirmative(word) {
        Some(true)
    } else if is_negative(word) {
        Some(false)
    } else {
        None
    }
}

/// Whether `c` is one of the two given forms of a letter.
pub open spec fn either(c: char, small: char, capital: char) -> bool {
    c == small || c == capital
}

/// Whether `c` is the letter written `lower` in lower case and `upper` as a
/// capital.
fn is_letter(c: char, lower: char, upper: char) -> (b: bool)
    requires
        'a' <= lower && lower <= 'z',
        upper as u32 + 32 == lower as u32,
    ensures
        b == either(c, lower, upper),
        b == (ascii_lower(c) == lower),
{
    c == lower || c == upper
}

/// The affirmative and the negative words, letter by letter: each letter may
/// be written small or as a capital, and nothing else may stand in its place.
pub proof fn words_by_letter(word: Seq<char>)
    ensures
        is_affirmative(word) <==> {
            ||| word.len() == 1 && either(word[0], 'y', 'Y')
            ||| word.len() == 3 && either(word[0], 'y', 'Y') && either(word[1], 'e', 'E')
                && either(word[2], 's', 'S')
        },
        is_negative(word) <==> {
            ||| word.len() == 1 && either(word[0], 'n', 'N')
            ||| word.len() == 2 && either(word[0], 'n', 'N') && either(word[1], 'o', 'O')
        },
        !(is_affirmative(word) && is_negative(word)),
        is_affirmative(word) || is_negative(word) ==> 1 <= word.len() <= 3,
{
    let y = seq!['y'];
    let yes = seq!['y', 'e', 's'];
    let n = seq!['n'];
    let no = seq!['n', 'o'];
    assert(y.len() == 1 && y[0] == 'y');
    assert(yes.len() == 3 && yes[0] == 'y' && yes[1] == 'e' && yes[2] == 's');
    assert(n.len() == 1 && n[0] == 'n');
    assert(no.len() == 2 && no[0] == 'n' && no[1] == 'o');
}

/// Interprets one line of input as the answer to a yes/no question.
pub fn interpret_answer(line: &str, default: bool) -> (answer: Option<bool>)
    ensures
        answer == answer_of(line@, default),
{
    let n: usize = line.unicode_len();
    let mut end: usize = n;
    if n >= 1 && line.get_char(n - 1) == '\n' {
        end = n - 1;
        if n >= 2 && line.get_char(n - 2) == '\r' {
            end = n - 2;
        }
    }
    proof {
        assert(chomp(line@) =~= line@.take(end as int));
        words_by_letter(chomp(line@));
    }
    if end == 0 {
        Some(default)
    } else if end == 1 {
        let c0 = line.get_char(0);
        if is_letter(c0, 'y', 'Y') {
            Some(true)
        } else if is_letter(c0, 'n', 'N') {
            Some(false)
        } else {
            None
        }
    } else if end == 2 {
        if is_letter(line.get_char(0), 'n', 'N') && is_letter(line.get_char(1), 'o', 'O') {
            Some(false)
        } else {
            None
        }
    } else if end == 3 {
        if is_letter(line.get_char(0), 'y', 'Y') && is_letter(line.get_char(1), 'e', 'E')
            && is_letter(line.get_char(2), 's', 'S') {
            Some(true)
        } else {
            None
        }
    } else {
        None
    }
}

} // verus!
