//! Strips the reasoning preamble from a model's reply.
//!
//! A reply may open with the model's reasoning, closed by the marker
//! `</think>`. The answer is what follows the first marker, without the
//! whitespace that the answer would otherwise start with.

use vstd::prelude::*;

verus! {

/// The marker that closes the reasoning preamble, in lower case.
pub const MARKER: &'static str = "</think>";

/// How many characters the marker has.
pub const MARKER_LEN: usize = 8;

/// The Kelvin sign, which Unicode folds to the letter `k`.
pub const KELVIN_SIGN: char = '\u{212A}';

/// The long s, which Unicode folds to the letter `s`.
pub const LONG_S: char = '\u{17F}';

/// The characters of the marker.
pub open spec fn marker() -> Seq<char> {
    MARKER@
}

/// Unicode's simple case folding, wherever it ends in an ASCII character:
/// the capital letters `A` to `Z`, the Kelvin sign and the long s fold to a
/// small letter. Every other character is left as it is.
pub open spec fn folded(c: char) -> char {
    if 'A' <= c && c <= 'Z' {
        ((c as u32) + 32) as char
    } else if c == KELVIN_SIGN {
        'k'
    } else if c == LONG_S {
        's'
    } else {
        c
    }
}

/// A text with each character folded.
pub open spec fn folded_text(text: Seq<char>) -> Seq<char> {
    text.map_values(|c: char| folded(c))
}

/// Whether a character has Unicode's property `White_Space`.
pub open spec fn white_space(c: char) -> bool {
    ||| '\u{9}' <= c && c <= '\u{D}'
    ||| c == ' '
    ||| c == '\u{85}'
    ||| c == '\u{A0}'
    ||| c == '\u{1680}'
    ||| '\u{2000}' <= c && c <= '\u{200A}'
    ||| c == '\u{2028}'
    ||| c == '\u{2029}'
    ||| c == '\u{202F}'
    ||| c == '\u{205F}'
    ||| c == '\u{3000}'
}

/// Whether the marker stands in `text` at `at`, in any mixture of cases.
pub open spec fn marker_at(text: Seq<char>, at: int) -> bool {
    &&& 0 <= at
    &&& at + marker().len() <= text.len()
    &&& folded_text(text.subrange(at, at + marker().len())) == marker()
}

/// Whether the marker stands anywhere in `text`.
pub open spec fn has_marker(text: Seq<char>) -> bool {
    exists|at: int| marker_at(text, at)
}

/// Whether the first marker of `text` stands at `at`.
pub open spec fn is_first_marker(text: Seq<char>, at: int) -> bool {
    &&& marker_at(text, at)
    &&& forall|earlier: int| 0 <= earlier < at ==> !marker_at(text, earlier)
}

/// Where the first marker of `text` stands, if `text` has one.
pub open spec fn first_marker(text: Seq<char>) -> int {
    choose|at: int| is_first_marker(text, at)
}

/// Where the whitespace that starts at `from` ends: the place of the first
/// character from there on that is no whitespace, or the end of `text`.
pub open spec fn whitespace_end(text: Seq<char>, from: int) -> int
    decreases text.len() - from,
{
    if 0 <= from < text.len() && white_space(text[from]) {
        whitespace_end(text, from + 1)
    } else {
        from
    }
}

/// Where the answer starts in a text whose first marker stands at `at`.
pub open spec fn answer_start(text: Seq<char>, at: int) -> int {
    whitespace_end(text, at + marker().len())
}

/// The reply without its preamble: what follows the first marker and the
/// whitespace behind it, or the whole text where it has no marker.
pub open spec fn cleaned(text: Seq<char>) -> Seq<char> {
    if has_marker(text) {
        text.skip(answer_start(text, first_marker(text)))
    } else {
        text
    }
}

/// The marker has eight characters, each of them folded already.
pub proof fn lemma_marker_text()
    ensures
        marker() == seq!['<', '/', 't', 'h', 'i', 'n', 'k', '>'],
        marker().len() == MARKER_LEN,
        folded_text(marker()) == marker(),
{
    reveal_strlit("</think>");
    assert(marker() =~= seq!['<', '/', 't', 'h', 'i', 'n', 'k', '>']);
    assert(folded_text(marker()) =~= marker());
}

/// A text has at most one first marker.
pub proof fn lemma_first_marker_unique(text: Seq<char>, at: int)
    requires
        is_first_marker(text, at),
    ensures
        has_marker(text),
        first_marker(text) == at,
{
    let chosen = first_marker(text);
    assert(is_first_marker(text, chosen));
    if chosen < at {
        assert(!marker_at(text, chosen));
    } else if at < chosen {
        assert(!marker_at(text, at));
    }
}

/// Where one marker stands, a first marker stands there or before.
pub proof fn lemma_first_marker_exists(text: Seq<char>, at: int)
    requires
        marker_at(text, at),
    ensures
        is_first_marker(text, first_marker(text)),
        first_marker(text) <= at,
    decreases at,
{
    if exists|earlier: int| 0 <= earlier < at && marker_at(text, earlier) {
        let earlier = choose|earlier: int| 0 <= earlier < at && marker_at(text, earlier);
        lemma_first_marker_exists(text, earlier);
    } else {
        assert(is_first_marker(text, at));
        lemma_first_marker_unique(text, at);
    }
}

/// The whitespace that starts at `from` ends at `from` or behind it, and
/// within the text where `from` lies within it.
pub proof fn lemma_whitespace_end_bounds(text: Seq<char>, from: int)
    ensures
        from <= whitespace_end(text, from),
        from <= text.len() ==> whitespace_end(text, from) <= text.len(),
    decreases text.len() - from,
{
    if 0 <= from < text.len() && white_space(text[from]) {
        lemma_whitespace_end_bounds(text, from + 1);
    }
}

/// Between `from` and the place where the whitespace ends stands nothing but
/// whitespace, and what stands at that place is none.
pub proof fn lemma_whitespace_end_stops(text: Seq<char>, from: int)
    requires
        0 <= from,
    ensures
        forall|i: int| from <= i < whitespace_end(text, from) ==> white_space(text[i]),
        whitespace_end(text, from) < text.len() ==> !white_space(
            text[whitespace_end(text, from)],
        ),
    decreases text.len() - from,
{
    if from < text.len() && white_space(text[from]) {
        lemma_whitespace_end_stops(text, from + 1);
    }
}

/// Whitespace ends at the same character whatever stands before it.
pub proof fn lemma_whitespace_end_shift(before: Seq<char>, text: Seq<char>, from: int)
    requires
        0 <= from,
    ensures
        whitespace_end(before + text, before.len() + from) == before.len() + whitespace_end(
            text,
            from,
        ),
    decreases text.len() - from,
{
    if from < text.len() {
        assert((before + text)[before.len() + from] == text[from]);
        if white_space(text[from]) {
            lemma_whitespace_end_shift(before, text, from + 1);
        }
    }
}

/// Where the marker stands does not depend on the case of any letter: two
/// texts that fold to the same text have their markers in the same places.
pub proof fn lemma_marker_ignores_case(a: Seq<char>, b: Seq<char>, at: int)
    requires
        folded_text(a) == folded_text(b),
    ensures
        marker_at(a, at) == marker_at(b, at),
{
    assert(a.len() == folded_text(a).len());
    assert(b.len() == folded_text(b).len());
    if 0 <= at && at + marker().len() <= a.len() {
        let end = at + marker().len();
        assert(folded_text(a.subrange(at, end)) =~= folded_text(a).subrange(at, end));
        assert(folded_text(b.subrange(at, end)) =~= folded_text(b).subrange(at, end));
    }
}

/// A reply that is a preamble, the marker in any mixture of cases and a rest
/// is cleaned to the rest without the whitespace it starts with, provided no
/// marker starts within the preamble. The preamble may hold any characters,
/// line breaks too, and the result is the one that the marker in lower case
/// gives.
pub proof fn lemma_strips_through_marker(
    preamble: Seq<char>,
    spelling: Seq<char>,
    rest: Seq<char>,
)
    requires
        folded_text(spelling) == marker(),
        forall|at: int|
            0 <= at < preamble.len() ==> !marker_at(preamble + spelling + rest, at),
    ensures
        cleaned(preamble + spelling + rest) == rest.skip(whitespace_end(rest, 0)),
        cleaned(preamble + spelling + rest) == cleaned(preamble + marker() + rest),
{
    lemma_marker_text();
    let text = preamble + spelling + rest;
    let plain = preamble + marker() + rest;
    assert(folded_text(text) =~= folded_text(plain)) by {
        assert(spelling.len() == folded_text(spelling).len());
        assert forall|i: int| 0 <= i < text.len() implies folded(text[i]) == folded(plain[i]) by {
            if preamble.len() <= i < preamble.len() + spelling.len() {
                let k = i - preamble.len();
                assert(folded_text(spelling)[k] == folded(spelling[k]));
                assert(folded_text(marker())[k] == folded(marker()[k]));
            }
        }
    }
    assert forall|at: int| 0 <= at < preamble.len() implies !marker_at(plain, at) by {
        lemma_marker_ignores_case(text, plain, at);
    }
    lemma_strips_behind(preamble, spelling, rest);
    lemma_strips_behind(preamble, marker(), rest);
}

/// What `lemma_strips_through_marker` says of one spelling.
proof fn lemma_strips_behind(preamble: Seq<char>, spelling: Seq<char>, rest: Seq<char>)
    requires
        folded_text(spelling) == marker(),
        forall|at: int|
            0 <= at < preamble.len() ==> !marker_at(preamble + spelling + rest, at),
    ensures
        cleaned(preamble + spelling + rest) == rest.skip(whitespace_end(rest, 0)),
{
    lemma_marker_text();
    let text = preamble + spelling + rest;
    let at = preamble.len() as int;
    assert(spelling.len() == folded_text(spelling).len());
    assert(text.subrange(at, at + marker().len()) =~= spelling);
    assert(is_first_marker(text, at));
    lemma_first_marker_unique(text, at);
    lemma_whitespace_end_shift(preamble + spelling, rest, 0);
    lemma_whitespace_end_bounds(rest, 0);
    assert(text.skip(at + 8 + whitespace_end(rest, 0)) =~= rest.skip(whitespace_end(rest, 0)));
}

/// What is left of a reply with a marker does not start with whitespace.
pub proof fn lemma_answer_starts_with_text(text: Seq<char>)
    requires
        has_marker(text),
    ensures
        cleaned(text).len() > 0 ==> !white_space(cleaned(text)[0]),
{
    lemma_marker_text();
    let at = choose|at: int| marker_at(text, at);
    lemma_first_marker_exists(text, at);
    let from = first_marker(text) + 8;
    lemma_whitespace_end_bounds(text, from);
    lemma_whitespace_end_stops(text, from);
}

/// A second cleaning changes nothing exactly where the first one left no
/// marker. Where it left one, the second cleaning strips the text up to it
/// as well: cleaning `a</think>b</think>c` gives `b</think>c`, and cleaning
/// that gives `c`.
pub proof fn lemma_second_cleaning(text: Seq<char>)
    ensures
        cleaned(cleaned(text)) == cleaned(text) <==> !has_marker(cleaned(text)),
{
    let once = cleaned(text);
    if has_marker(once) {
        lemma_marker_text();
        let at = choose|at: int| marker_at(once, at);
        lemma_first_marker_exists(once, at);
        let first = first_marker(once);
        lemma_whitespace_end_bounds(once, first + 8);
        assert(cleaned(once).len() < once.len());
    }
}

/// Folds one character.
pub fn fold(c: char) -> (r: char)
    ensures
        r == folded(c),
{
    if c >= 'A' && c <= 'Z' {
        ((c as u8) + 32) as char
    } else if c == KELVIN_SIGN {
        'k'
    } else if c == LONG_S {
        's'
    } else {
        c
    }
}

/// Tells whether a character is whitespace.
pub fn is_whitespace(c: char) -> (r: bool)
    ensures
        r == white_space(c),
{
    (c >= '\u{9}' && c <= '\u{D}') || c == ' ' || c == '\u{85}' || c == '\u{A0}'
        || c == '\u{1680}' || (c >= '\u{2000}' && c <= '\u{200A}') || c == '\u{2028}'
        || c == '\u{2029}' || c == '\u{202F}' || c == '\u{205F}' || c == '\u{3000}'
}

/// Tells whether the marker stands in `text` at `at`.
pub fn is_marker_at(text: &[char], at: usize) -> (r: bool)
    ensures
        r == marker_at(text@, at as int),
{
    proof {
        lemma_marker_text();
    }
    if text.len() < MARKER_LEN || at > text.len() - MARKER_LEN {
        return false;
    }
    let r = text[at] == '<' && text[at + 1] == '/' && fold(text[at + 2]) == 't' && fold(
        text[at + 3],
    ) == 'h' && fold(text[at + 4]) == 'i' && fold(text[at + 5]) == 'n' && fold(text[at + 6])
        == 'k' && text[at + 7] == '>';
    proof {
        let window = folded_text(text@.subrange(at as int, at + 8));
        if r {
            assert(window =~= marker());
        } else {
            assert(window[0] == folded(text@[at as int]));
            assert(window[1] == folded(text@[at + 1]));
            assert(window[2] == folded(text@[at + 2]));
            assert(window[3] == folded(text@[at + 3]));
            assert(window[4] == folded(text@[at + 4]));
            assert(window[5] == folded(text@[at + 5]));
            assert(window[6] == folded(text@[at + 6]));
            assert(window[7] == folded(text@[at + 7]));
        }
    }
    r
}

/// Finds the first marker of `text`.
pub fn find_marker(text: &[char]) -> (found: Option<usize>)
    ensures
        match found {
            Some(at) => is_first_marker(text@, at as int),
            None => !has_marker(text@),
        },
{
    let mut at: usize = 0;
    while at < text.len()
        invariant
            at <= text.len(),
            forall|earlier: int| 0 <= earlier < at ==> !marker_at(text@, earlier),
        decreases text.len() - at,
    {
        if is_marker_at(text, at) {
            return Some(at);
        }
        at += 1;
    }
    proof {
        lemma_marker_text();
    }
    None
}

/// Finds where the whitespace that starts at `from` ends.
pub fn skip_whitespace(text: &[char], from: usize) -> (end: usize)
    ensures
        end == whitespace_end(text@, from as int),
        from <= end,
        from <= text.len() ==> end <= text.len(),
{
    let mut end: usize = from;
    while end < text.len() && is_whitespace(text[end])
        invariant
            from <= end,
            from <= text.len() ==> end <= text.len(),
            whitespace_end(text@, end as int) == whitespace_end(text@, from as int),
        decreases text.len() - end,
    {
        end += 1;
    }
    end
}

/// The characters of a text, one by one.
fn chars_of(text: &str) -> (chars: Vec<char>)
    ensures
        chars@ == text@,
{
    let mut chars: Vec<char> = Vec::new();
    for c in it: text.chars()
        invariant
            chars@ == it.seq().take(it.index() as int),
            it.seq() == text@,
    {
        chars.push(c);
    }
    chars
}

/// Removes the preamble of a reply: everything up to the first marker, the
/// marker itself and the whitespace behind it. The marker is found in any
/// mixture of cases and wherever it stands, behind line breaks too. A reply
/// without a marker is returned as it is.
pub fn clean_response(response: &str) -> (answer: String)
    ensures
        answer@ == cleaned(response@),
        !has_marker(response@) ==> answer@ == response@,
        forall|at: int|
            is_first_marker(response@, at) ==> answer@ == response@.skip(
                answer_start(response@, at),
            ),
{
    let chars = chars_of(response);
    let text = chars.as_slice();
    let len = text.len();
    match find_marker(text) {
        Some(at) => {
            proof {
                lemma_marker_text();
                lemma_first_marker_unique(response@, at as int);
            }
            let start = skip_whitespace(text, at + MARKER_LEN);
            String::from_str(response.substring_char(start, len))
        },
        None => String::from_str(response),
    }
}

} // verus!
