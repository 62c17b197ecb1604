//! Editing of the password field: a text buffer and a cursor that counts the
//! code points before it.
//!
//! Insertion, deletion and single steps are done by `tui_input`, which moves
//! over whole user-perceived characters. Word motion and word deletion follow
//! this library's own rule: a word is a maximal run of characters that are not
//! spaces.

use vstd::prelude::*;
use crate::text::chars_of;

verus! {

/// One editing step on the password field.
#[derive(Clone, Copy, Debug, PartialEq, Eq)]
pub enum EditRequest {
    /// Insert a character at the cursor.
    Insert(char),
    /// Delete the character before the cursor.
    DeletePrevChar,
    /// Move the cursor one character to the left.
    PrevChar,
    /// Move the cursor one character to the right.
    NextChar,
    /// Move the cursor to the start of the word before it.
    PrevWord,
    /// Move the cursor to the end of the word after it.
    NextWord,
    /// Delete from the start of the word before the cursor up to the cursor.
    DeletePrevWord,
}

impl EditRequest {
    /// Whether the step is one of those that `tui_input` carries out.
    pub open spec fn by_character(self) -> bool {
        self is Insert || self is DeletePrevChar || self is PrevChar || self is NextChar
    }
}

/// The cursor as the field uses it: never beyond the end of the text.
pub open spec fn clamped(text: Seq<char>, cursor: nat) -> nat {
    if cursor <= text.len() {
        cursor
    } else {
        text.len()
    }
}

/// Text and cursor that `tui_input::Input::handle` leaves behind when a field
/// holding `text`, with the cursor set to `cursor`, is given a request that
/// works `by_character`.
pub uninterp spec fn handled(text: Seq<char>, cursor: nat, request: EditRequest) -> (Seq<char>, nat);

/// What is known of the text `after` and cursor `moved` that a request working
/// `by_character` leaves behind. An insertion is known exactly. The other three
/// move over one user-perceived character, which may span several code points:
/// how far is left to `tui_input`.
pub open spec fn character_step(
    text: Seq<char>,
    cursor: nat,
    request: EditRequest,
    after: Seq<char>,
    moved: nat,
) -> bool {
    let at = clamped(text, cursor) as int;
    &&& moved <= after.len()
    &&& match request {
        EditRequest::Insert(c) => after == text.insert(at, c) && moved == at + 1,
        EditRequest::DeletePrevChar => moved <= at && after == text.take(moved as int) + text.skip(
            at,
        ),
        EditRequest::PrevChar => after == text && moved <= at,
        EditRequest::NextChar => after == text && at <= moved,
        _ => true,
    }
}

/// Going left from `pos`, the position before the run of spaces that ends there.
pub open spec fn before_spaces(text: Seq<char>, pos: int) -> int
    decreases pos,
{
    if 0 < pos <= text.len() && text[pos - 1] == ' ' {
        before_spaces(text, pos - 1)
    } else {
        pos
    }
}

/// Going left from `pos`, the position before the run of non-spaces that ends there.
pub open spec fn before_word(text: Seq<char>, pos: int) -> int
    decreases pos,
{
    if 0 < pos <= text.len() && text[pos - 1] != ' ' {
        before_word(text, pos - 1)
    } else {
        pos
    }
}

/// Going right from `pos`, the position after the run of spaces that starts there.
pub open spec fn after_spaces(text: Seq<char>, pos: int) -> int
    decreases text.len() - pos,
{
    if 0 <= pos < text.len() && text[pos] == ' ' {
        after_spaces(text, pos + 1)
    } else {
        pos
    }
}

/// Going right from `pos`, the position after the run of non-spaces that starts there.
pub open spec fn after_word(text: Seq<char>, pos: int) -> int
    decreases text.len() - pos,
{
    if 0 <= pos < text.len() && text[pos] != ' ' {
        after_word(text, pos + 1)
    } else {
        pos
    }
}

/// Start of the word before the cursor: spaces next to the cursor are passed
/// over first.
pub open spec fn prev_word_start(text: Seq<char>, cursor: nat) -> int {
    before_word(text, before_spaces(text, clamped(text, cursor) as int))
}

/// End of the word after the cursor: spaces next to the cursor are passed over
/// first.
pub open spec fn next_word_end(text: Seq<char>, cursor: nat) -> int {
    after_word(text, after_spaces(text, clamped(text, cursor) as int))
}

/// Text and cursor after one editing step.
pub open spec fn edited(text: Seq<char>, cursor: nat, request: EditRequest) -> (Seq<char>, nat) {
    match request {
        EditRequest::Insert(c) => (
            text.insert(clamped(text, cursor) as int, c),
            clamped(text, cursor) + 1,
        ),
        EditRequest::PrevWord => (text, prev_word_start(text, cursor) as nat),
        EditRequest::NextWord => (text, next_word_end(text, cursor) as nat),
        EditRequest::DeletePrevWord => (
            text.take(prev_word_start(text, cursor)) + text.skip(clamped(text, cursor) as int),
            prev_word_start(text, cursor) as nat,
        ),
        _ => handled(text, cursor, request),
    }
}

/// Where the two runs to the left of `pos` begin.
proof fn lemma_left_runs(text: Seq<char>, pos: int)
    requires
        0 <= pos <= text.len(),
    ensures
        0 <= before_spaces(text, pos) <= pos,
        0 <= before_word(text, pos) <= pos,
        forall|i: int| before_spaces(text, pos) <= i < pos ==> text[i] == ' ',
        forall|i: int| before_word(text, pos) <= i < pos ==> text[i] != ' ',
        before_word(text, pos) > 0 ==> text[before_word(text, pos) - 1] == ' ',
    decreases pos,
{
    if pos > 0 {
        lemma_left_runs(text, pos - 1);
    }
}

/// Where the two runs to the right of `pos` end.
proof fn lemma_right_runs(text: Seq<char>, pos: int)
    requires
        0 <= pos <= text.len(),
    ensures
        pos <= after_spaces(text, pos) <= text.len(),
        pos <= after_word(text, pos) <= text.len(),
        forall|i: int| pos <= i < after_spaces(text, pos) ==> text[i] == ' ',
        forall|i: int| pos <= i < after_word(text, pos) ==> text[i] != ' ',
        after_word(text, pos) < text.len() ==> text[after_word(text, pos)] == ' ',
    decreases text.len() - pos,
{
    if pos < text.len() {
        lemma_right_runs(text, pos + 1);
    }
}

/// A step to the previous word ends at the start of a word or of the text:
/// between it and the cursor lie the characters of one word at most, then
/// spaces only, and no character of a word stands right before it.
pub proof fn prev_word_start_is_a_boundary(text: Seq<char>, cursor: nat)
    ensures
        ({
            let at = clamped(text, cursor) as int;
            let gap = before_spaces(text, at);
            let start = prev_word_start(text, cursor);
            &&& 0 <= start <= gap <= at
            &&& forall|i: int| gap <= i < at ==> text[i] == ' '
            &&& forall|i: int| start <= i < gap ==> text[i] != ' '
            &&& start > 0 ==> text[start - 1] == ' '
        }),
{
    let at = clamped(text, cursor) as int;
    lemma_left_runs(text, at);
    lemma_left_runs(text, before_spaces(text, at));
}

/// A step to the next word ends at the end of a word or of the text: between
/// the cursor and it lie spaces only, then the characters of one word at
/// most, and no character of a word stands right after it.
pub proof fn next_word_end_is_a_boundary(text: Seq<char>, cursor: nat)
    ensures
        ({
            let at = clamped(text, cursor) as int;
            let gap = after_spaces(text, at);
            let end = next_word_end(text, cursor);
            &&& at <= gap <= end <= text.len()
            &&& forall|i: int| at <= i < gap ==> text[i] == ' '
            &&& forall|i: int| gap <= i < end ==> text[i] != ' '
            &&& end < text.len() ==> text[end] == ' '
        }),
{
    let at = clamped(text, cursor) as int;
    lemma_right_runs(text, at);
    lemma_right_runs(text, after_spaces(text, at));
}

/// Deleting the word before the cursor takes nothing away but what lies
/// between the start of that word and the cursor, and leaves the cursor there.
pub proof fn word_deletion_keeps_the_rest(text: Seq<char>, cursor: nat)
    ensures
        ({
            let at = clamped(text, cursor) as int;
            let start = prev_word_start(text, cursor);
            let (after, moved) = edited(text, cursor, EditRequest::DeletePrevWord);
            &&& moved == start
            &&& after.len() == text.len() - (at - start)
            &&& forall|i: int| 0 <= i < start ==> after[i] == text[i]
            &&& forall|i: int| start <= i < after.len() ==> after[i] == text[i + (at - start)]
        }),
{
    prev_word_start_is_a_boundary(text, cursor);
}

/// Asks `tui_input::Input::handle` to carry out `request` on a field that holds
/// `text` with its cursor at `cursor`, and hands back what the field holds
/// afterwards. The contract names that outcome and states of it what the
/// crate's source shows: the cursor stays within the text, an insertion puts
/// the character at the cursor and steps over it, a deletion removes what lies
/// between the new cursor and the old one, and a move leaves the text alone and
/// goes in its direction only.
#[verifier::external_body]
fn handle(text: &str, cursor: usize, request: EditRequest) -> (r: (String, usize))
    requires
        request.by_character(),
    ensures
        (r.0@, r.1 as nat) == handled(text@, cursor as nat, request),
        character_step(text@, cursor as nat, request, r.0@, r.1 as nat),
{
    let mut input = tui_input::Input::new(text.to_string()).with_cursor(cursor);
    let _ = input.handle(
        match request {
            EditRequest::Insert(c) => tui_input::InputRequest::InsertChar(c),
            EditRequest::DeletePrevChar => tui_input::InputRequest::DeletePrevChar,
            EditRequest::PrevChar => tui_input::InputRequest::GoToPrevChar,
            EditRequest::NextChar => tui_input::InputRequest::GoToNextChar,
            EditRequest::PrevWord => tui_input::InputRequest::GoToPrevWord,
            EditRequest::NextWord => tui_input::InputRequest::GoToNextWord,
            EditRequest::DeletePrevWord => tui_input::InputRequest::DeletePrevWord,
        },
    );
    (input.value().to_string(), input.cursor())
}

/// Start of the word before `cursor`.
fn find_prev_word(chars: &Vec<char>, cursor: usize) -> (p: usize)
    ensures
        p == prev_word_start(chars@, cursor as nat),
        p <= clamped(chars@, cursor as nat),
{
    let at: usize = if cursor <= chars.len() {
        cursor
    } else {
        chars.len()
    };
    let mut p: usize = at;
    while p > 0 && chars[p - 1] == ' '
        invariant
            p <= at <= chars.len(),
            before_spaces(chars@, p as int) == before_spaces(chars@, at as int),
        decreases p,
    {
        p = p - 1;
    }
    let ghost mid = p;
    while p > 0 && chars[p - 1] != ' '
        invariant
            p <= mid <= chars.len(),
            before_word(chars@, p as int) == before_word(chars@, mid as int),
        decreases p,
    {
        p = p - 1;
    }
    p
}

/// End of the word after `cursor`.
fn find_next_word(chars: &Vec<char>, cursor: usize) -> (p: usize)
    ensures
        p == next_word_end(chars@, cursor as nat),
        clamped(chars@, cursor as nat) <= p <= chars.len(),
{
    let at: usize = if cursor <= chars.len() {
        cursor
    } else {
        chars.len()
    };
    let mut p: usize = at;
    while p < chars.len() && chars[p] == ' '
        invariant
            at <= p <= chars.len(),
            after_spaces(chars@, p as int) == after_spaces(chars@, at as int),
        decreases chars.len() - p,
    {
        p = p + 1;
    }
    let ghost mid = p;
    while p < chars.len() && chars[p] != ' '
        invariant
            mid <= p <= chars.len(),
            after_word(chars@, p as int) == after_word(chars@, mid as int),
        decreases chars.len() - p,
    {
        p = p + 1;
    }
    p
}

/// Carries out one editing step on `text` with the cursor at `cursor`, and
/// returns the new text and cursor. A cursor beyond the end of the text counts
/// as standing at its end.
pub fn edit(text: &str, cursor: usize, request: EditRequest) -> (r: (String, usize))
    ensures
        (r.0@, r.1 as nat) == edited(text@, cursor as nat, request),
        r.1 <= r.0@.len(),
        request.by_character() ==> character_step(text@, cursor as nat, request, r.0@, r.1 as nat),
{
    match request {
        EditRequest::PrevWord => {
            let chars = chars_of(text);
            let p = find_prev_word(&chars, cursor);
            (text.to_owned(), p)
        },
        EditRequest::NextWord => {
            let chars = chars_of(text);
            let p = find_next_word(&chars, cursor);
            (text.to_owned(), p)
        },
        EditRequest::DeletePrevWord => {
            let chars = chars_of(text);
            let at: usize = if cursor <= chars.len() {
                cursor
            } else {
                chars.len()
            };
            let p = find_prev_word(&chars, cursor);
            let head = text.substring_char(0, p);
            let tail = text.substring_char(at, chars.len());
            let mut kept = head.to_owned();
            kept.append(tail);
            assert(text@.take(p as int) == text@.subrange(0, p as int));
            assert(text@.skip(at as int) == text@.subrange(at as int, text@.len() as int));
            (kept, p)
        },
        _ => handle(text, cursor, request),
    }
}

} // verus!
