use vstd::prelude::*;
use vstd::string::*;
use vstd::utf8::encode_utf8;

verus! {

/// The length of a text in bytes, as a column width.
pub open spec fn byte_width(text: Seq<char>) -> usize {
    encode_utf8(text).len() as usize
}

/// The largest byte width among the texts; 0 where there is none.
pub open spec fn widest(texts: Seq<Seq<char>>) -> usize
    decreases texts.len(),
{
    if texts.len() == 0 {
        0
    } else {
        let rest = widest(texts.drop_last());
        let width = byte_width(texts.last());
        if width > rest {
            width
        } else {
            rest
        }
    }
}

/// The width of a column: that of its widest text, or the given width where
/// the column is empty.
pub open spec fn column_width(texts: Seq<Seq<char>>, if_empty: usize) -> usize {
    if texts.len() == 0 {
        if_empty
    } else {
        widest(texts)
    }
}

/// The character `c`, `n` times.
pub open spec fn fill(c: char, n: nat) -> Seq<char> {
    Seq::new(n, |i: int| c)
}

/// The text, followed by as many `c` as bring it to `width` characters; a
/// text that has that many is left as it is.
pub open spec fn padded(text: Seq<char>, width: usize, c: char) -> Seq<char> {
    if text.len() < width {
        text + fill(c, (width - text.len()) as nat)
    } else {
        text
    }
}

/// Two cells, each padded with spaces to its width, with a bar between them.
pub open spec fn two_cells(left: Seq<char>, left_width: usize, right: Seq<char>, right_width: usize)
    -> Seq<char> {
    padded(left, left_width, ' ') + " | "@ + padded(right, right_width, ' ')
}

/// The character of a decimal digit.
pub open spec fn digit(d: nat) -> char {
    if d == 0 {
        '0'
    } else if d == 1 {
        '1'
    } else if d == 2 {
        '2'
    } else if d == 3 {
        '3'
    } else if d == 4 {
        '4'
    } else if d == 5 {
        '5'
    } else if d == 6 {
        '6'
    } else if d == 7 {
        '7'
    } else if d == 8 {
        '8'
    } else {
        '9'
    }
}

/// The number in decimal, without leading zeros.
pub open spec fn decimal(n: nat) -> Seq<char>
    decreases n,
{
    if n < 10 {
        seq![digit(n)]
    } else {
        decimal(n / 10).push(digit(n % 10))
    }
}

/// The rule under the heading: dashes as wide as the left column, a cross,
/// and the width of the left column in decimal, filled up with dashes to the
/// width of the right column.
pub open spec fn rule(left_width: usize, right_width: usize) -> Seq<char> {
    fill('-', left_width as nat) + "-+-"@ + padded(decimal(left_width as nat), right_width, '-')
}

/// Appends `unit`, a text of one character, `count` times.
pub fn append_fill(line: &mut String, unit: &str, count: usize)
    requires
        unit@.len() == 1,
    ensures
        final(line)@ == old(line)@ + fill(unit@[0], count as nat),
{
    let mut i: usize = 0;
    assert(line@ =~= old(line)@ + fill(unit@[0], 0));
    while i < count
        invariant
            i <= count,
            unit@.len() == 1,
            line@ == old(line)@ + fill(unit@[0], i as nat),
        decreases count - i,
    {
        line.append(unit);
        i += 1;
        assert(line@ =~= old(line)@ + fill(unit@[0], i as nat));
    }
}

/// Appends the text and pads it with `unit`, a text of one character, to
/// `width` characters.
pub fn append_padded(line: &mut String, text: &str, width: usize, unit: &str)
    requires
        unit@.len() == 1,
    ensures
        final(line)@ == old(line)@ + padded(text@, width, unit@[0]),
{
    line.append(text);
    let have = text.unicode_len();
    if have < width {
        append_fill(line, unit, width - have);
        assert(line@ =~= old(line)@ + padded(text@, width, unit@[0]));
    }
}

/// One line of two cells.
pub fn cells_line(left: &str, left_width: usize, right: &str, right_width: usize) -> (line: String)
    ensures
        line@ == two_cells(left@, left_width, right@, right_width),
{
    proof {
        reveal_strlit(" ");
    }
    let mut line = String::new();
    append_padded(&mut line, left, left_width, " ");
    line.append(" | ");
    append_padded(&mut line, right, right_width, " ");
    assert(line@ =~= two_cells(left@, left_width, right@, right_width));
    line
}

/// The text of one decimal digit.
pub fn digit_text(d: usize) -> (text: &'static str)
    requires
        d < 10,
    ensures
        text@ == seq![digit(d as nat)],
{
    proof {
        reveal_strlit("0");
        reveal_strlit("1");
        reveal_strlit("2");
        reveal_strlit("3");
        reveal_strlit("4");
        reveal_strlit("5");
        reveal_strlit("6");
        reveal_strlit("7");
        reveal_strlit("8");
        reveal_strlit("9");
    }
    let text = if d == 0 {
        "0"
    } else if d == 1 {
        "1"
    } else if d == 2 {
        "2"
    } else if d == 3 {
        "3"
    } else if d == 4 {
        "4"
    } else if d == 5 {
        "5"
    } else if d == 6 {
        "6"
    } else if d == 7 {
        "7"
    } else if d == 8 {
        "8"
    } else {
        "9"
    };
    assert(text@ =~= seq![digit(d as nat)]);
    text
}

/// The number in decimal.
pub fn decimal_text(n: usize) -> (text: String)
    ensures
        text@ == decimal(n as nat),
    decreases n,
{
    if n < 10 {
        String::from_str(digit_text(n))
    } else {
        let mut text = decimal_text(n / 10);
        text.append(digit_text(n % 10));
        assert(text@ =~= decimal(n as nat));
        text
    }
}

/// The line of the rule.
pub fn rule_line(left_width: usize, right_width: usize) -> (line: String)
    ensures
        line@ == rule(left_width, right_width),
{
    proof {
        reveal_strlit("-");
    }
    let number = decimal_text(left_width);
    let mut line = String::new();
    append_fill(&mut line, "-", left_width);
    line.append("-+-");
    append_padded(&mut line, number.as_str(), right_width, "-");
    assert(line@ =~= rule(left_width, right_width));
    line
}

} // verus!
