//! Text helpers that the commands share: comparing, splitting, trimming,
//! joining and formatting, each stated over sequences of characters.

use vstd::prelude::*;

verus! {

/// The lower-case form of `text` under the Unicode case mappings.
pub uninterp spec fn lowercase(text: Seq<char>) -> Seq<char>;

/// Whether `c` is white space: one of the characters to which Unicode
/// gives the property `White_Space`. These are the tab, the line feed, the
/// vertical tab, the form feed and the carriage return, the space, the
/// next-line control, the no-break space, the Ogham space mark, the spaces
/// of fixed width from the en quad to the hair space, the line and the
/// paragraph separator, the narrow no-break space, the medium mathematical
/// space, and the ideographic space.
pub open spec fn is_whitespace(c: char) -> bool {
    let code = c as u32;
    ||| 0x0009 <= code <= 0x000D
    ||| code == 0x0020
    ||| code == 0x0085
    ||| code == 0x00A0
    ||| code == 0x1680
    ||| 0x2000 <= code <= 0x200A
    ||| code == 0x2028
    ||| code == 0x2029
    ||| code == 0x202F
    ||| code == 0x205F
    ||| code == 0x3000
}

/// Whether `c` is white space.
pub fn char_is_whitespace(c: char) -> (white: bool)
    ensures
        white == is_whitespace(c),
{
    let code = c as u32;
    (0x0009 <= code && code <= 0x000D) || code == 0x0020 || code == 0x0085 || code == 0x00A0
        || code == 0x1680 || (0x2000 <= code && code <= 0x200A) || code == 0x2028
        || code == 0x2029 || code == 0x202F || code == 0x205F || code == 0x3000
}

/// Calls `str::to_lowercase`. The contract only gives the result its name:
/// nothing is claimed about how any character is mapped.
#[verifier::external_body]
pub(crate) fn to_lowercase(text: &str) -> (lowered: String)
    ensures
        lowered@ == lowercase(text@),
{
    text.to_lowercase()
}

/// The pieces of `text` between occurrences of `separator`. There is always
/// one piece more than there are separators, and pieces may be empty.
pub open spec fn split_on(text: Seq<char>, separator: char) -> Seq<Seq<char>>
    decreases text.len(),
{
    if text.len() == 0 {
        seq![Seq::<char>::empty()]
    } else {
        let before = split_on(text.drop_last(), separator);
        if text.last() == separator {
            before.push(Seq::<char>::empty())
        } else {
            before.drop_last().push(before.last().push(text.last()))
        }
    }
}

/// `text` without its leading white space.
pub open spec fn trim_start(text: Seq<char>) -> Seq<char>
    decreases text.len(),
{
    if text.len() > 0 && is_whitespace(text.first()) {
        trim_start(text.drop_first())
    } else {
        text
    }
}

/// `text` without its trailing white space.
pub open spec fn trim_end(text: Seq<char>) -> Seq<char>
    decreases text.len(),
{
    if text.len() > 0 && is_whitespace(text.last()) {
        trim_end(text.drop_last())
    } else {
        text
    }
}

/// `text` without leading and trailing white space.
pub open spec fn trimmed(text: Seq<char>) -> Seq<char> {
    trim_end(trim_start(text))
}

/// The items written one after another with `separator` between neighbours.
pub open spec fn joined(items: Seq<Seq<char>>, separator: Seq<char>) -> Seq<char>
    decreases items.len(),
{
    if items.len() == 0 {
        Seq::<char>::empty()
    } else if items.len() == 1 {
        items[0]
    } else {
        joined(items.drop_last(), separator) + separator + items.last()
    }
}

/// The decimal digit that stands for `d`, for `d` below ten.
pub open spec fn digit(d: nat) -> Seq<char> {
    if d == 0 {
        "0"@
    } else if d == 1 {
        "1"@
    } else if d == 2 {
        "2"@
    } else if d == 3 {
        "3"@
    } else if d == 4 {
        "4"@
    } else if d == 5 {
        "5"@
    } else if d == 6 {
        "6"@
    } else if d == 7 {
        "7"@
    } else if d == 8 {
        "8"@
    } else {
        "9"@
    }
}

/// `n` in decimal notation, without sign or leading zeros.
pub open spec fn decimal(n: nat) -> Seq<char>
    decreases n,
{
    if n < 10 {
        digit(n)
    } else {
        decimal(n / 10) + digit(n % 10)
    }
}

/// `text` followed by as many spaces as it takes to reach `width` characters.
pub open spec fn padded(text: Seq<char>, width: nat) -> Seq<char> {
    if text.len() >= width {
        text
    } else {
        text + Seq::new((width - text.len()) as nat, |i: int| ' ')
    }
}

/// Splitting never gives nothing: there is at least one piece.
pub proof fn lemma_split_gives_a_piece(text: Seq<char>, separator: char)
    ensures
        split_on(text, separator).len() >= 1,
    decreases text.len(),
{
    if text.len() > 0 {
        lemma_split_gives_a_piece(text.drop_last(), separator);
    }
}

/// Text without a separator, added at the end, lengthens the last piece.
proof fn lemma_split_of_longer_text(text: Seq<char>, more: Seq<char>, separator: char)
    requires
        !more.contains(separator),
    ensures
        split_on(text + more, separator) == split_on(text, separator).drop_last().push(
            split_on(text, separator).last() + more,
        ),
    decreases more.len(),
{
    let pieces = split_on(text, separator);
    lemma_split_gives_a_piece(text, separator);
    if more.len() > 0 {
        let shorter = more.drop_last();
        lemma_split_of_longer_text(text, shorter, separator);
        assert((text + more).drop_last() =~= text + shorter);
        let before = split_on(text + shorter, separator);
        assert(before.last().push(more.last()) =~= pieces.last() + more);
    }
}

/// A text without separators is its own and only piece.
pub proof fn lemma_split_without_separator(text: Seq<char>, separator: char)
    requires
        !text.contains(separator),
    ensures
        split_on(text, separator) == seq![text],
{
    let nothing = Seq::<char>::empty();
    lemma_split_of_longer_text(nothing, text, separator);
}

/// A separator and a piece without separators, added at the end, add that
/// piece to the pieces.
pub proof fn lemma_split_of_one_more_piece(text: Seq<char>, piece: Seq<char>, separator: char)
    requires
        !piece.contains(separator),
    ensures
        split_on(text + seq![separator] + piece, separator) == split_on(text, separator).push(
            piece,
        ),
{
    let head = text + seq![separator];
    assert(head.drop_last() =~= text);
    lemma_split_of_longer_text(head, piece, separator);
}

/// White space around a text that neither begins nor ends with white
/// space is trimmed away, and nothing else is.
pub proof fn lemma_trim_removes_what_surrounds(lead: Seq<char>, inner: Seq<char>, tail: Seq<char>)
    requires
        forall|i: int| 0 <= i < lead.len() ==> is_whitespace(#[trigger] lead[i]),
        forall|i: int| 0 <= i < tail.len() ==> is_whitespace(#[trigger] tail[i]),
        inner.len() > 0 ==> !is_whitespace(inner.first()) && !is_whitespace(inner.last()),
    ensures
        trimmed(lead + inner + tail) == inner,
{
    lemma_trim_start_removes_lead(lead, inner + tail);
    assert(lead + inner + tail =~= lead + (inner + tail));
    if inner.len() > 0 {
        lemma_trim_end_removes_tail(inner, tail);
    } else {
        lemma_trim_start_removes_lead(tail, Seq::<char>::empty());
    }
}

/// Leading white space is trimmed away down to what follows it.
proof fn lemma_trim_start_removes_lead(lead: Seq<char>, rest: Seq<char>)
    requires
        forall|i: int| 0 <= i < lead.len() ==> is_whitespace(#[trigger] lead[i]),
    ensures
        trim_start(lead + rest) == trim_start(rest),
    decreases lead.len(),
{
    if lead.len() > 0 {
        assert((lead + rest).drop_first() =~= lead.drop_first() + rest);
        lemma_trim_start_removes_lead(lead.drop_first(), rest);
    }
}

/// Trailing white space is trimmed away up to a text that does not end
/// with white space.
proof fn lemma_trim_end_removes_tail(inner: Seq<char>, tail: Seq<char>)
    requires
        forall|i: int| 0 <= i < tail.len() ==> is_whitespace(#[trigger] tail[i]),
        inner.len() > 0,
        !is_whitespace(inner.last()),
    ensures
        trim_end(inner + tail) == inner,
    decreases tail.len(),
{
    if tail.len() > 0 {
        assert((inner + tail).drop_last() =~= inner + tail.drop_last());
        lemma_trim_end_removes_tail(inner, tail.drop_last());
    }
}

/// Pieces that hold no separator, joined by the separator and split again,
/// are the same pieces.
pub proof fn lemma_join_then_split(items: Seq<Seq<char>>, separator: char)
    requires
        items.len() >= 1,
        forall|i: int| 0 <= i < items.len() ==> !(#[trigger] items[i]).contains(separator),
    ensures
        split_on(joined(items, seq![separator]), separator) == items,
    decreases items.len(),
{
    let nothing = Seq::<char>::empty();
    if items.len() == 1 {
        lemma_split_of_longer_text(nothing, items[0], separator);
    } else {
        let front = items.drop_last();
        lemma_join_then_split(front, separator);
        let head = joined(front, seq![separator]) + seq![separator];
        assert(head.drop_last() =~= joined(front, seq![separator]));
        lemma_split_of_longer_text(head, items.last(), separator);
    }
}

/// The place of the first of the texts that is `wanted`, if one of them is.
pub open spec fn first_index_of(texts: Seq<Seq<char>>, wanted: Seq<char>) -> Option<int>
    decreases texts.len(),
{
    if texts.len() == 0 {
        None
    } else if texts.first() == wanted {
        Some(0)
    } else {
        match first_index_of(texts.drop_first(), wanted) {
            Some(at) => Some(at + 1),
            None => None,
        }
    }
}

/// The first index is the place of a text that is `wanted` with none such
/// before it, and there is none exactly when no text is `wanted`.
pub proof fn lemma_first_index_is_first(texts: Seq<Seq<char>>, wanted: Seq<char>)
    ensures
        match first_index_of(texts, wanted) {
            Some(at) => {
                &&& 0 <= at < texts.len()
                &&& texts[at] == wanted
                &&& forall|k: int| 0 <= k < at ==> texts[k] != wanted
            },
            None => forall|k: int| 0 <= k < texts.len() ==> texts[k] != wanted,
        },
    decreases texts.len(),
{
    if texts.len() > 0 {
        let rest = texts.drop_first();
        lemma_first_index_is_first(rest, wanted);
        if texts.first() != wanted {
            match first_index_of(rest, wanted) {
                Some(at) => {
                    assert forall|k: int| 0 <= k < at + 1 implies texts[k] != wanted by {
                        if k > 0 {
                            assert(rest[k - 1] == texts[k]);
                        }
                    }
                },
                None => {
                    assert forall|k: int| 0 <= k < texts.len() implies texts[k] != wanted by {
                        if k > 0 {
                            assert(rest[k - 1] == texts[k]);
                        }
                    }
                },
            }
        }
    }
}

/// Finds the first of the texts that holds the same characters as `wanted`.
pub fn first_equal(texts: &Vec<String>, wanted: &str) -> (at: Option<usize>)
    ensures
        match at {
            Some(place) => first_index_of(texts.deep_view(), wanted@) == Some(place as int),
            None => first_index_of(texts.deep_view(), wanted@) is None,
        },
{
    let ghost all = texts.deep_view();
    let mut i: usize = 0;
    while i < texts.len()
        invariant
            i <= texts.len(),
            all == texts.deep_view(),
            forall|k: int| 0 <= k < i ==> all[k] != wanted@,
        decreases texts.len() - i,
    {
        if same_text(texts[i].as_str(), wanted) {
            proof {
                lemma_first_index_is_first(all, wanted@);
                assert(all[i as int] == wanted@);
            }
            return Some(i);
        }
        i += 1;
    }
    proof {
        lemma_first_index_is_first(all, wanted@);
    }
    None
}

/// Whether two texts hold the same characters.
pub fn same_text(a: &str, b: &str) -> (same: bool)
    ensures
        same == (a@ == b@),
{
    let left = a.to_owned();
    let right = b.to_owned();
    left == right
}

/// Whether `text` ends with `suffix`.
pub fn ends_with(text: &str, suffix: &str) -> (ends: bool)
    ensures
        ends == suffix@.is_suffix_of(text@),
{
    let n = text.unicode_len();
    let m = suffix.unicode_len();
    if m > n {
        false
    } else {
        same_text(text.substring_char(n - m, n), suffix)
    }
}

/// Splits `text` at every occurrence of `separator`.
pub fn split(text: &str, separator: char) -> (pieces: Vec<String>)
    ensures
        pieces.deep_view() == split_on(text@, separator),
{
    let n = text.unicode_len();
    let mut pieces: Vec<String> = Vec::new();
    let mut start: usize = 0;
    let mut i: usize = 0;
    proof {
        assert(text@.take(0) =~= Seq::<char>::empty());
    }
    while i < n
        invariant
            n == text@.len(),
            start <= i <= n,
            split_on(text@.take(i as int), separator) == pieces.deep_view().push(
                text@.subrange(start as int, i as int),
            ),
        decreases n - i,
    {
        let c = text.get_char(i);
        let ghost open_piece = text@.subrange(start as int, i as int);
        proof {
            let longer = text@.take(i + 1);
            assert(longer.drop_last() =~= text@.take(i as int));
        }
        if c == separator {
            pieces.push(text.substring_char(start, i).to_owned());
            start = i + 1;
            proof {
                assert(text@.subrange(start as int, i + 1) =~= Seq::<char>::empty());
            }
        } else {
            proof {
                assert(text@.subrange(start as int, i + 1) =~= open_piece.push(c));
            }
        }
        i += 1;
    }
    pieces.push(text.substring_char(start, n).to_owned());
    proof {
        assert(text@.take(n as int) =~= text@);
    }
    pieces
}

/// Removes leading and trailing white space.
pub fn trim(text: &str) -> (inner: &str)
    ensures
        inner@ == trimmed(text@),
{
    let n = text.unicode_len();
    let mut from: usize = 0;
    proof {
        assert(text@.subrange(0, n as int) =~= text@);
    }
    while from < n && char_is_whitespace(text.get_char(from))
        invariant
            n == text@.len(),
            from <= n,
            trim_start(text@) == trim_start(text@.subrange(from as int, n as int)),
        decreases n - from,
    {
        proof {
            assert(text@.subrange(from as int, n as int).drop_first() =~= text@.subrange(
                from + 1,
                n as int,
            ));
        }
        from += 1;
    }
    let mut to: usize = n;
    while to > from && char_is_whitespace(text.get_char(to - 1))
        invariant
            n == text@.len(),
            from <= to <= n,
            trimmed(text@) == trim_end(text@.subrange(from as int, to as int)),
        decreases to,
    {
        proof {
            assert(text@.subrange(from as int, to as int).drop_last() =~= text@.subrange(
                from as int,
                to - 1,
            ));
        }
        to -= 1;
    }
    text.substring_char(from, to)
}

/// Writes the items one after another with `separator` between neighbours.
pub fn join(items: &Vec<String>, separator: &str) -> (text: String)
    ensures
        text@ == joined(items.deep_view(), separator@),
{
    let mut text = String::new();
    let mut i: usize = 0;
    while i < items.len()
        invariant
            i <= items.len(),
            text@ == joined(items.deep_view().take(i as int), separator@),
        decreases items.len() - i,
    {
        proof {
            let longer = items.deep_view().take(i + 1);
            assert(longer.drop_last() =~= items.deep_view().take(i as int));
        }
        if i > 0 {
            text.append(separator);
        }
        text.append(items[i].as_str());
        i += 1;
    }
    proof {
        assert(items.deep_view().take(items.len() as int) =~= items.deep_view());
    }
    text
}

/// The digit that stands for `d`.
fn digit_text(d: usize) -> (text: &'static str)
    requires
        d < 10,
    ensures
        text@ == digit(d as nat),
{
    if d == 0 {
        "0"
    } else if d == 1 {
        "1"
    } else if d == 2 {
        "2"
    } else if d == 3 {
        "3"
    } else if d == 4 {
        "4"
    } else if d == 5 {
        "5"
    } else if d == 6 {
        "6"
    } else if d == 7 {
        "7"
    } else if d == 8 {
        "8"
    } else {
        "9"
    }
}

/// Writes `n` in decimal notation.
pub fn decimal_text(n: usize) -> (text: String)
    ensures
        text@ == decimal(n as nat),
    decreases n,
{
    if n < 10 {
        digit_text(n).to_owned()
    } else {
        let mut text = decimal_text(n / 10);
        text.append(digit_text(n % 10));
        text
    }
}

/// Pads `text` with spaces on the right until it is `width` characters long.
pub fn pad_right(text: &str, width: usize) -> (wide: String)
    ensures
        wide@ == padded(text@, width as nat),
{
    let mut wide = text.to_owned();
    let mut length = text.unicode_len();
    if length >= width {
        return wide;
    }
    let ghost start = length;
    while length < width
        invariant
            start == text@.len(),
            start <= length <= width,
            wide@ == text@ + Seq::new((length - start) as nat, |i: int| ' '),
        decreases width - length,
    {
        proof {
            reveal_strlit(" ");
        }
        wide.append(" ");
        length += 1;
    }
    wide
}

} // verus!
