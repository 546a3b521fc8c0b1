use vstd::prelude::*;
use vstd::string::{StrSliceExecFns, StringExecFns};

use crate::models::{FeedResult, FeedResultView, Uri};

verus! {

/// The decimal digit for a value below ten.
pub open spec fn digit_char(value: nat) -> char {
    if value == 0 {
        '0'
    } else if value == 1 {
        '1'
    } else if value == 2 {
        '2'
    } else if value == 3 {
        '3'
    } else if value == 4 {
        '4'
    } else if value == 5 {
        '5'
    } else if value == 6 {
        '6'
    } else if value == 7 {
        '7'
    } else if value == 8 {
        '8'
    } else {
        '9'
    }
}

/// The value of a decimal digit, or `None` for any other character.
pub open spec fn digit_value(digit: char) -> Option<nat> {
    if digit == '0' {
        Some(0)
    } else if digit == '1' {
        Some(1)
    } else if digit == '2' {
        Some(2)
    } else if digit == '3' {
        Some(3)
    } else if digit == '4' {
        Some(4)
    } else if digit == '5' {
        Some(5)
    } else if digit == '6' {
        Some(6)
    } else if digit == '7' {
        Some(7)
    } else if digit == '8' {
        Some(8)
    } else if digit == '9' {
        Some(9)
    } else {
        None
    }
}

/// A number in decimal digits, without leading zeros.
pub open spec fn decimal_text(value: nat) -> Seq<char>
    decreases value,
{
    if value < 10 {
        seq![digit_char(value)]
    } else {
        decimal_text(value / 10).push(digit_char(value % 10))
    }
}

/// Whether a text is made of decimal digits, at least one.
pub open spec fn is_decimal(text: Seq<char>) -> bool {
    text.len() > 0 && forall|i: int| 0 <= i < text.len() ==> digit_value(#[trigger] text[i]) is Some
}

/// The number that a text of decimal digits denotes.
pub open spec fn decimal_value(text: Seq<char>) -> nat
    decreases text.len(),
{
    if text.len() == 0 {
        0
    } else {
        decimal_value(text.drop_last()) * 10 + match digit_value(text.last()) {
            Some(value) => value,
            None => 0,
        }
    }
}

/// The position that a cursor text denotes: the number it spells in decimal
/// digits, where it spells one that a `usize` holds.
pub open spec fn cursor_position(text: Seq<char>) -> Option<nat> {
    if is_decimal(text) && decimal_value(text) <= usize::MAX {
        Some(decimal_value(text))
    } else {
        None
    }
}

/// Where a page starts: at the position that the cursor denotes, and at the
/// first item where there is no cursor or it denotes no position.
pub open spec fn start_of(cursor: Option<Seq<char>>) -> nat {
    match cursor {
        Some(text) => match cursor_position(text) {
            Some(position) => position,
            None => 0,
        },
        None => 0,
    }
}

/// The page of at most `size` items that starts at `start`. Its cursor is the
/// position of the item after its last one, and is absent exactly when no
/// item follows.
pub open spec fn page_of(items: Seq<Seq<char>>, start: nat, size: nat) -> FeedResultView {
    if start + size < items.len() {
        FeedResultView {
            cursor: Some(decimal_text(start + size)),
            feed: items.subrange(start as int, (start + size) as int),
        }
    } else if start < items.len() {
        FeedResultView { cursor: None, feed: items.subrange(start as int, items.len() as int) }
    } else {
        FeedResultView { cursor: None, feed: Seq::empty() }
    }
}

/// The items of the pages that at most `rounds` requests fetch, each request
/// made with the cursor that the one before it returned, together with the
/// cursor that the last of them returned.
pub open spec fn walk(items: Seq<Seq<char>>, cursor: Option<Seq<char>>, size: nat, rounds: nat) -> (
    Seq<Seq<char>>,
    Option<Seq<char>>,
)
    decreases rounds,
{
    if rounds == 0 {
        (Seq::empty(), cursor)
    } else {
        let page = page_of(items, start_of(cursor), size);
        match page.cursor {
            Some(next) => {
                let rest = walk(items, Some(next), size, (rounds - 1) as nat);
                (page.feed + rest.0, rest.1)
            },
            None => (page.feed, None),
        }
    }
}

proof fn lemma_digit_round_trip(value: nat)
    requires
        value < 10,
    ensures
        digit_value(digit_char(value)) == Some(value),
{
}

/// The decimal text of a number is made of digits and denotes that number.
pub proof fn decimal_text_round_trip(value: nat)
    ensures
        is_decimal(decimal_text(value)),
        decimal_value(decimal_text(value)) == value,
    decreases value,
{
    if value < 10 {
        lemma_digit_round_trip(value);
        let text = decimal_text(value);
        assert(text.drop_last() =~= Seq::<char>::empty());
        assert(decimal_value(text.drop_last()) == 0);
    } else {
        decimal_text_round_trip(value / 10);
        lemma_digit_round_trip(value % 10);
        let text = decimal_text(value);
        let head = decimal_text(value / 10);
        assert(text.drop_last() =~= head);
        assert(text.last() == digit_char(value % 10));
        assert forall|i: int| 0 <= i < text.len() implies digit_value(#[trigger] text[i]) is Some by {
            if i < head.len() {
                assert(text[i] == head[i]);
            }
        }
    }
}

/// A cursor that a page returns denotes the position after the page's last
/// item.
pub proof fn cursor_round_trip(position: nat)
    requires
        position <= usize::MAX,
    ensures
        start_of(Some(decimal_text(position))) == position,
{
    decimal_text_round_trip(position);
}

proof fn lemma_walk_from(items: Seq<Seq<char>>, cursor: Option<Seq<char>>, size: nat, rounds: nat)
    requires
        size >= 1,
        items.len() <= usize::MAX,
        start_of(cursor) <= items.len(),
        rounds >= items.len() - start_of(cursor) + 1,
    ensures
        walk(items, cursor, size, rounds) == (
            items.subrange(start_of(cursor) as int, items.len() as int),
            None::<Seq<char>>,
        ),
    decreases rounds,
{
    let start = start_of(cursor);
    let page = page_of(items, start, size);
    if start + size < items.len() {
        let next = Some(decimal_text(start + size));
        cursor_round_trip(start + size);
        lemma_walk_from(items, next, size, (rounds - 1) as nat);
        assert(items.subrange(start as int, (start + size) as int) + items.subrange(
            (start + size) as int,
            items.len() as int,
        ) =~= items.subrange(start as int, items.len() as int));
    } else if start < items.len() {
    } else {
        assert(items.subrange(start as int, items.len() as int) =~= Seq::<Seq<char>>::empty());
    }
}

/// Fetching pages from the start, each with the cursor that the page before
/// it returned, gives every item exactly once, in order, and ends with an
/// absent cursor after at most as many requests as there are items, and one
/// more.
pub proof fn pagination_closure(items: Seq<Seq<char>>, size: nat, rounds: nat)
    requires
        size >= 1,
        items.len() <= usize::MAX,
        rounds > items.len(),
    ensures
        walk(items, None, size, rounds) == (items, None::<Seq<char>>),
{
    lemma_walk_from(items, None, size, rounds);
    assert(items.subrange(0, items.len() as int) =~= items);
}

/// The text of one decimal digit.
fn digit_text(value: usize) -> (text: &'static str)
    requires
        value < 10,
    ensures
        text@ == seq![digit_char(value as nat)],
{
    proof {
        reveal_strlit("0");
        reveal_strlit("1");
        reveal_strlit("2");
        reveal_strlit("3");
        reveal_strlit("4");
        reveal_strlit("5");
        reveal_strlit("6");
        reveal_strlit("7");
        reveal_strlit("8");
        reveal_strlit("9");
    }
    let text = if value == 0 {
        "0"
    } else if value == 1 {
        "1"
    } else if value == 2 {
        "2"
    } else if value == 3 {
        "3"
    } else if value == 4 {
        "4"
    } else if value == 5 {
        "5"
    } else if value == 6 {
        "6"
    } else if value == 7 {
        "7"
    } else if value == 8 {
        "8"
    } else {
        "9"
    };
    assert(text@ =~= seq![digit_char(value as nat)]);
    text
}

/// Writes a position as a cursor: in decimal digits.
pub fn encode_cursor(position: usize) -> (cursor: String)
    ensures
        cursor@ == decimal_text(position as nat),
    decreases position,
{
    if position < 10 {
        String::from_str(digit_text(position))
    } else {
        let mut cursor = encode_cursor(position / 10);
        cursor.append(digit_text(position % 10));
        assert(cursor@ =~= decimal_text((position / 10) as nat).push(
            digit_char((position % 10) as nat),
        ));
        cursor
    }
}

/// The value of one decimal digit.
fn digit_of(digit: char) -> (value: Option<usize>)
    ensures
        match value {
            Some(v) => digit_value(digit) == Some(v as nat),
            None => digit_value(digit) is None,
        },
{
    if digit == '0' {
        Some(0)
    } else if digit == '1' {
        Some(1)
    } else if digit == '2' {
        Some(2)
    } else if digit == '3' {
        Some(3)
    } else if digit == '4' {
        Some(4)
    } else if digit == '5' {
        Some(5)
    } else if digit == '6' {
        Some(6)
    } else if digit == '7' {
        Some(7)
    } else if digit == '8' {
        Some(8)
    } else if digit == '9' {
        Some(9)
    } else {
        None
    }
}

proof fn lemma_decimal_value_grows(text: Seq<char>, i: int)
    requires
        0 <= i <= text.len(),
    ensures
        decimal_value(text.subrange(0, i)) <= decimal_value(text),
    decreases text.len() - i,
{
    if i < text.len() {
        lemma_decimal_value_grows(text, i + 1);
        let longer = text.subrange(0, i + 1);
        assert(longer.drop_last() =~= text.subrange(0, i));
    } else {
        assert(text.subrange(0, i) =~= text);
    }
}

/// Reads a cursor: the position it denotes, or `None` where it is not a
/// number in decimal digits that a `usize` holds.
pub fn decode_cursor(cursor: &str) -> (position: Option<usize>)
    ensures
        match position {
            Some(p) => cursor_position(cursor@) == Some(p as nat),
            None => cursor_position(cursor@) is None,
        },
{
    let length = cursor.unicode_len();
    if length == 0 {
        return None;
    }
    let mut value: usize = 0;
    let mut i: usize = 0;
    while i < length
        invariant
            length == cursor@.len(),
            i <= length,
            value == decimal_value(cursor@.subrange(0, i as int)),
            forall|k: int| 0 <= k < i ==> digit_value(#[trigger] cursor@[k]) is Some,
        decreases length - i,
    {
        let ghost upto = cursor@.subrange(0, i + 1);
        proof {
            assert(upto.drop_last() =~= cursor@.subrange(0, i as int));
            assert(upto.last() == cursor@[i as int]);
            lemma_decimal_value_grows(cursor@, i + 1);
        }
        let digit = match digit_of(cursor.get_char(i)) {
            Some(digit) => digit,
            None => {
                return None;
            },
        };
        if value > (usize::MAX - digit) / 10 {
            assert(decimal_value(upto) > usize::MAX);
            return None;
        }
        value = value * 10 + digit;
        i += 1;
    }
    assert(cursor@.subrange(0, length as int) =~= cursor@);
    Some(value)
}

/// Cuts one page out of a ranked list of identifiers.
///
/// The page starts at the position that the cursor denotes, or at the first
/// item where the cursor is absent or denotes none, and holds at most `size`
/// items. Its cursor is absent exactly when the page reaches the end of the
/// list.
pub fn paginate(items: &Vec<Uri>, cursor: &Option<String>, size: usize) -> (page: FeedResult)
    ensures
        page.deep_view() == page_of(
            items.deep_view(),
            start_of(cursor.deep_view()),
            size as nat,
        ),
{
    let start = match cursor {
        Some(text) => match decode_cursor(text.as_str()) {
            Some(position) => position,
            None => 0,
        },
        None => 0,
    };
    let length = items.len();
    let mut feed: Vec<Uri> = Vec::new();
    if start >= length {
        assert(feed.deep_view() =~= Seq::<Seq<char>>::empty());
        return FeedResult { cursor: None, feed };
    }
    let end = if size < length - start {
        start + size
    } else {
        length
    };
    let mut i: usize = start;
    while i < end
        invariant
            start <= i <= end <= length,
            length == items.len(),
            feed.len() == i - start,
            forall|k: int| 0 <= k < feed.len() ==> #[trigger] feed@[k]@ == items@[start + k]@,
        decreases end - i,
    {
        feed.push(Uri(items[i].0.clone()));
        i += 1;
    }
    proof {
        let cut = items.deep_view().subrange(start as int, end as int);
        assert(feed.deep_view().len() == cut.len());
        assert forall|k: int| 0 <= k < cut.len() implies feed.deep_view()[k] == cut[k] by {
            assert(feed@[k]@ == items@[start + k]@);
        }
        assert(feed.deep_view() =~= cut);
    }
    let next = if end < length {
        Some(encode_cursor(end))
    } else {
        None
    };
    FeedResult { cursor: next, feed }
}

} // verus!
