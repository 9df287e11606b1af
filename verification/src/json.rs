//! Failures of the JSON reader, as plain values.

use crate::text::{decimal, is_digit, is_number, law_decimal_reads_back, number};
use vstd::prelude::*;

verus! {

/// What a JSON read failure reports: where it happened and how it reads.
///
/// `line` is 0 when the failure carries no position.
#[derive(Debug)]
pub struct JsonError {
    pub line: usize,
    pub column: usize,
    /// The failure written out, with its position if it has one.
    pub rendered: String,
}

/// Abstract value of a [`JsonError`].
pub struct JsonErrorView {
    pub line: nat,
    pub column: nat,
    pub rendered: Seq<char>,
}

impl View for JsonError {
    type V = JsonErrorView;

    open spec fn view(&self) -> JsonErrorView {
        JsonErrorView {
            line: self.line as nat,
            column: self.column as nat,
            rendered: self.rendered@,
        }
    }
}

/// A message with the position that it is reported at, written out. Line 0 stands
/// for "no position".
pub open spec fn rendered_at(message: Seq<char>, line: nat, column: nat) -> Seq<char> {
    if line == 0 {
        message
    } else {
        message + " at line "@ + decimal(line) + " column "@ + decimal(column)
    }
}

/// Whether `text` is `message` followed by a position, whose two numbers are
/// written with the digits `line` and `column` and fit a `usize`.
pub open spec fn is_positioned(
    text: Seq<char>,
    message: Seq<char>,
    line: Seq<char>,
    column: Seq<char>,
) -> bool {
    &&& text == message + " at line "@ + line + " column "@ + column
    &&& is_number(line)
    &&& is_number(column)
    &&& number(line) <= usize::MAX
    &&& number(column) <= usize::MAX
}

/// The failure that a written-out text stands for: a position at the end of the
/// text becomes the failure's position, any other text is a message without one.
pub open spec fn json_error_of_text(text: Seq<char>) -> JsonErrorView {
    if exists|m: Seq<char>, l: Seq<char>, c: Seq<char>| #[trigger] is_positioned(text, m, l, c) {
        let (m, l, c) = choose|m: Seq<char>, l: Seq<char>, c: Seq<char>|
            #[trigger] is_positioned(text, m, l, c);
        JsonErrorView {
            line: number(l),
            column: number(c),
            rendered: rendered_at(m, number(l), number(c)),
        }
    } else {
        JsonErrorView { line: 0, column: 0, rendered: text }
    }
}

/// A failure in the form in which the JSON reader reports one: either it has a
/// position and its text ends in it, or it has none and its text ends in none.
pub open spec fn is_reported(error: JsonErrorView) -> bool {
    ||| {
        &&& 1 <= error.line <= usize::MAX
        &&& error.column <= usize::MAX
        &&& exists|m: Seq<char>| error.rendered == #[trigger] rendered_at(m, error.line, error.column)
    }
    ||| {
        &&& error.line == 0
        &&& error.column == 0
        &&& !exists|m: Seq<char>, l: Seq<char>, c: Seq<char>|
            #[trigger] is_positioned(error.rendered, m, l, c)
    }
}

/// A text ends in at most one position.
proof fn lemma_position_is_unique(
    text: Seq<char>,
    m1: Seq<char>,
    l1: Seq<char>,
    c1: Seq<char>,
    m2: Seq<char>,
    l2: Seq<char>,
    c2: Seq<char>,
)
    requires
        is_positioned(text, m1, l1, c1),
        is_positioned(text, m2, l2, c2),
    ensures
        m1 == m2,
        l1 == l2,
        c1 == c2,
{
    reveal_strlit(" at line ");
    reveal_strlit(" column ");
    lemma_column_not_shorter(text, m1, l1, c1, m2, l2, c2);
    lemma_column_not_shorter(text, m2, l2, c2, m1, l1, c1);
    let n = text.len();
    assert(c1 =~= text.skip(n - c1.len()));
    assert(c2 =~= text.skip(n - c2.len()));
    lemma_line_not_shorter(text, m1, l1, m2, l2, c1);
    lemma_line_not_shorter(text, m2, l2, m1, l1, c1);
    let k = n - c1.len() - 8;
    assert(l1 =~= text.subrange(k - l1.len(), k));
    assert(l2 =~= text.subrange(k - l2.len(), k));
    assert(m1 =~= text.take(k - l1.len() - 9));
    assert(m2 =~= text.take(k - l2.len() - 9));
}

proof fn lemma_column_not_shorter(
    text: Seq<char>,
    m1: Seq<char>,
    l1: Seq<char>,
    c1: Seq<char>,
    m2: Seq<char>,
    l2: Seq<char>,
    c2: Seq<char>,
)
    requires
        is_positioned(text, m1, l1, c1),
        is_positioned(text, m2, l2, c2),
    ensures
        c1.len() >= c2.len(),
{
    reveal_strlit(" column ");
    if c1.len() < c2.len() {
        let p = text.len() - c1.len() - 1;
        assert(text[p] == ' ');
        assert(text[p] == c2[p - (text.len() - c2.len())]);
        assert(is_digit(c2[p - (text.len() - c2.len())]));
    }
}

proof fn lemma_line_not_shorter(
    text: Seq<char>,
    m1: Seq<char>,
    l1: Seq<char>,
    m2: Seq<char>,
    l2: Seq<char>,
    c: Seq<char>,
)
    requires
        is_positioned(text, m1, l1, c),
        is_positioned(text, m2, l2, c),
    ensures
        l1.len() >= l2.len(),
{
    reveal_strlit(" at line ");
    reveal_strlit(" column ");
    if l1.len() < l2.len() {
        let k = text.len() - c.len() - 8;
        let p = k - l1.len() - 1;
        assert(text[p] == ' ');
        assert(text[p] == l2[p - (k - l2.len())]);
        assert(is_digit(l2[p - (k - l2.len())]));
    }
}

/// A position at the end of a text becomes the failure's own, whatever its digits;
/// the text is then written out anew, and a position at line 0 is left out.
pub proof fn law_positions_are_taken_off_the_text(
    message: Seq<char>,
    line: Seq<char>,
    column: Seq<char>,
)
    requires
        is_number(line),
        is_number(column),
        number(line) <= usize::MAX,
        number(column) <= usize::MAX,
    ensures
        ({
            let error = json_error_of_text(message + " at line "@ + line + " column "@ + column);
            &&& error.line == number(line)
            &&& error.column == number(column)
            &&& number(line) == 0 ==> error.rendered == message
            &&& number(line) > 0 ==> error.rendered == message + " at line "@ + decimal(
                number(line),
            ) + " column "@ + decimal(number(column))
        }),
{
    let text = message + " at line "@ + line + " column "@ + column;
    assert(is_positioned(text, message, line, column));
    let (m, l, c) = choose|m: Seq<char>, l: Seq<char>, c: Seq<char>|
        #[trigger] is_positioned(text, m, l, c);
    lemma_position_is_unique(text, message, line, column, m, l, c);
}

/// A failure that is written out and read back is the failure it was, position and
/// text included.
pub proof fn law_reported_error_reads_back(error: JsonErrorView)
    requires
        is_reported(error),
    ensures
        json_error_of_text(error.rendered) == error,
{
    if error.line > 0 {
        let m = choose|m: Seq<char>| error.rendered == #[trigger] rendered_at(
            m,
            error.line,
            error.column,
        );
        let l = decimal(error.line);
        let c = decimal(error.column);
        law_decimal_reads_back(error.line);
        law_decimal_reads_back(error.column);
        assert(is_positioned(error.rendered, m, l, c));
        let (m2, l2, c2) = choose|m: Seq<char>, l: Seq<char>, c: Seq<char>|
            #[trigger] is_positioned(error.rendered, m, l, c);
        lemma_position_is_unique(error.rendered, m, l, c, m2, l2, c2);
    }
}

} // verus!
