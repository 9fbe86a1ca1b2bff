//! The line-numbering transform: fixed-width decimal labels and the policy
//! that decides which lines receive one.

use vstd::prelude::*;
use crate::config::NumberingMode;

verus! {

/// Minimum width, in characters, of a printed line label.
pub const LABEL_WIDTH: usize = 6;

/// The decimal digit character for a value below ten.
pub open spec fn spec_digit_char(d: nat) -> char {
    if d == 0 {
        '0'
    } else if d == 1 {
        '1'
    } else if d == 2 {
        '2'
    } else if d == 3 {
        '3'
    } else if d == 4 {
        '4'
    } else if d == 5 {
        '5'
    } else if d == 6 {
        '6'
    } else if d == 7 {
        '7'
    } else if d == 8 {
        '8'
    } else {
        '9'
    }
}

/// The decimal digit string of `n`, most significant digit first, with no
/// leading zeros (`0` itself is the single digit `0`).
pub open spec fn spec_decimal(n: nat) -> Seq<char>
    decreases n,
{
    if n < 10 {
        seq![spec_digit_char(n)]
    } else {
        spec_decimal(n / 10) + seq![spec_digit_char(n % 10)]
    }
}

/// `k` space characters.
pub open spec fn spec_spaces(k: nat) -> Seq<char>
    decreases k,
{
    if k == 0 {
        Seq::empty()
    } else {
        spec_spaces((k - 1) as nat) + seq![' ']
    }
}

/// The printed label of counter value `n`: its decimal digits right-aligned
/// in a field of at least `LABEL_WIDTH` characters, padded with spaces.
pub open spec fn spec_label(n: nat) -> Seq<char> {
    if spec_decimal(n).len() >= LABEL_WIDTH {
        spec_decimal(n)
    } else {
        spec_spaces((LABEL_WIDTH - spec_decimal(n).len()) as nat) + spec_decimal(n)
    }
}

/// A line as emitted with counter value `n` prepended: the label, a tab,
/// then the line's own content.
pub open spec fn spec_numbered_line(n: nat, line: Seq<char>) -> Seq<char> {
    spec_label(n) + seq!['\t'] + line
}

/// The single-character string for a decimal digit value.
fn digit_str(d: u64) -> (r: &'static str)
    requires
        d < 10,
    ensures
        r@ == seq![spec_digit_char(d as nat)],
{
    proof {
        reveal_strlit("0");
        reveal_strlit("1");
        reveal_strlit("2");
        reveal_strlit("3");
        reveal_strlit("4");
        reveal_strlit("5");
        reveal_strlit("6");
        reveal_strlit("7");
        reveal_strlit("8");
        reveal_strlit("9");
        assert("0"@ =~= seq!['0']);
        assert("1"@ =~= seq!['1']);
        assert("2"@ =~= seq!['2']);
        assert("3"@ =~= seq!['3']);
        assert("4"@ =~= seq!['4']);
        assert("5"@ =~= seq!['5']);
        assert("6"@ =~= seq!['6']);
        assert("7"@ =~= seq!['7']);
        assert("8"@ =~= seq!['8']);
        assert("9"@ =~= seq!['9']);
    }
    if d == 0 {
        "0"
    } else if d == 1 {
        "1"
    } else if d == 2 {
        "2"
    } else if d == 3 {
        "3"
    } else if d == 4 {
        "4"
    } else if d == 5 {
        "5"
    } else if d == 6 {
        "6"
    } else if d == 7 {
        "7"
    } else if d == 8 {
        "8"
    } else {
        "9"
    }
}

/// The decimal digit string of `n`.
pub fn decimal_string(n: u64) -> (r: String)
    ensures
        r@ == spec_decimal(n as nat),
    decreases n,
{
    if n < 10 {
        let r = String::from_str(digit_str(n));
        proof {
            assert(r@ =~= spec_decimal(n as nat));
        }
        r
    } else {
        proof {
            assert(n as nat / 10 < n as nat) by (nonlinear_arith)
                requires
                    n >= 10,
            ;
        }
        let mut r = decimal_string(n / 10);
        r.append(digit_str(n % 10));
        r
    }
}

/// The printed label of counter value `n`: decimal digits right-aligned in
/// a field of at least `LABEL_WIDTH` characters.
pub fn label_string(n: u64) -> (r: String)
    ensures
        r@ == spec_label(n as nat),
{
    let digits = decimal_string(n);
    let len = digits.as_str().unicode_len();
    if len >= LABEL_WIDTH {
        return digits;
    }
    let mut r = String::new();
    let mut i: usize = 0;
    proof {
        reveal_strlit(" ");
        assert(" "@ =~= seq![' ']);
        assert(r@ =~= spec_spaces(0));
    }
    while i < LABEL_WIDTH - len
        invariant
            i <= LABEL_WIDTH - len,
            len == spec_decimal(n as nat).len(),
            r@ == spec_spaces(i as nat),
            " "@ == seq![' '],
        decreases LABEL_WIDTH - len - i,
    {
        r.append(" ");
        i += 1;
    }
    r.append(digits.as_str());
    r
}

/// Whether a line advances the numbering counter and receives a label
/// under `mode`. A line is blank when its content, without its newline
/// delimiter, is empty.
pub open spec fn line_counted(mode: NumberingMode, line: Seq<char>) -> bool {
    match mode {
        NumberingMode::Plain => false,
        NumberingMode::AllLines => true,
        NumberingMode::NonblankLines => line.len() > 0,
    }
}

/// The value of the numbering counter after processing `lines` under
/// `mode`, starting from zero.
pub open spec fn spec_count(lines: Seq<Seq<char>>, mode: NumberingMode) -> nat
    decreases lines.len(),
{
    if lines.len() == 0 {
        0
    } else {
        spec_count(lines.drop_last(), mode) + (if line_counted(mode, lines.last()) {
            1nat
        } else {
            0nat
        })
    }
}

/// Line `i` of the numbering tool's output: labelled with the counter value
/// it advanced to when it is counted, unchanged otherwise.
pub open spec fn spec_output_line(lines: Seq<Seq<char>>, mode: NumberingMode, i: int) -> Seq<
    char,
> {
    if line_counted(mode, lines[i]) {
        spec_numbered_line(spec_count(lines.take(i + 1), mode), lines[i])
    } else {
        lines[i]
    }
}

/// The numbering tool's whole output for one source: one output line per
/// input line, in order.
pub open spec fn spec_numbered(lines: Seq<Seq<char>>, mode: NumberingMode) -> Seq<Seq<char>> {
    Seq::new(lines.len(), |i: int| spec_output_line(lines, mode, i))
}

/// One processing step moves the counter by one exactly when the line at
/// `i` is counted.
pub proof fn lemma_count_step(lines: Seq<Seq<char>>, mode: NumberingMode, i: int)
    requires
        0 <= i < lines.len(),
    ensures
        spec_count(lines.take(i + 1), mode) == spec_count(lines.take(i), mode) + (
        if line_counted(mode, lines[i]) {
            1nat
        } else {
            0nat
        }),
{
    assert(lines.take(i + 1).drop_last() =~= lines.take(i));
    assert(lines.take(i + 1).last() == lines[i]);
}

/// Law: whatever the mode, the output has exactly one line per input line.
pub proof fn lemma_line_for_line(lines: Seq<Seq<char>>, mode: NumberingMode)
    ensures
        spec_numbered(lines, mode).len() == lines.len(),
{
}

/// In all-lines mode every line counts, so the counter after `lines` is
/// their number.
pub proof fn lemma_count_all_lines(lines: Seq<Seq<char>>)
    ensures
        spec_count(lines, NumberingMode::AllLines) == lines.len(),
    decreases lines.len(),
{
    if lines.len() > 0 {
        lemma_count_all_lines(lines.drop_last());
    }
}

/// Law: in all-lines mode the output carries the labels `1..L` in order,
/// one per line, with no gaps and no repeats.
pub proof fn lemma_all_lines_labels(lines: Seq<Seq<char>>)
    ensures
        spec_numbered(lines, NumberingMode::AllLines).len() == lines.len(),
        forall|i: int|
            0 <= i < lines.len() ==> spec_numbered(lines, NumberingMode::AllLines)[i]
                == spec_numbered_line((i + 1) as nat, lines[i]),
{
    assert forall|i: int| 0 <= i < lines.len() implies spec_numbered(
        lines,
        NumberingMode::AllLines,
    )[i] == spec_numbered_line((i + 1) as nat, lines[i]) by {
        lemma_count_all_lines(lines.take(i + 1));
    }
}

/// Law: in nonblank-lines mode the counter advances exactly on lines whose
/// content is non-empty; a blank line is emitted unchanged and unnumbered,
/// and a non-blank line at `i` is labelled with the count of non-blank
/// lines up to and including it.
pub proof fn lemma_nonblank_labels(lines: Seq<Seq<char>>, i: int)
    requires
        0 <= i < lines.len(),
    ensures
        spec_count(lines.take(i + 1), NumberingMode::NonblankLines) == spec_count(
            lines.take(i),
            NumberingMode::NonblankLines,
        ) + (if lines[i].len() > 0 {
            1nat
        } else {
            0nat
        }),
        lines[i].len() == 0 ==> spec_numbered(lines, NumberingMode::NonblankLines)[i]
            == lines[i],
        lines[i].len() > 0 ==> spec_numbered(lines, NumberingMode::NonblankLines)[i]
            == spec_numbered_line(
            spec_count(lines.take(i), NumberingMode::NonblankLines) + 1,
            lines[i],
        ),
{
    lemma_count_step(lines, NumberingMode::NonblankLines, i);
}

/// A line as the numbering tool emits it with counter value `n`: the label,
/// a tab, then the line's content.
pub fn numbered_line(n: u64, line: &String) -> (r: String)
    ensures
        r@ == spec_numbered_line(n as nat, line@),
{
    let mut r = label_string(n);
    proof {
        reveal_strlit("\t");
        assert("\t"@ =~= seq!['\t']);
    }
    r.append("\t");
    r.append(line.as_str());
    r
}

/// The numbering tool's transform for one source: every input line yields
/// exactly one output line, labelled or not as `mode` directs, with the
/// counter starting at zero for the source.
pub fn number_lines(lines: &Vec<String>, mode: NumberingMode) -> (r: Vec<String>)
    ensures
        r.deep_view() == spec_numbered(lines.deep_view(), mode),
        r@.len() == lines@.len(),
{
    let ghost glines = lines.deep_view();
    let mut out: Vec<String> = Vec::new();
    let mut counter: u64 = 0;
    let mut i: usize = 0;
    while i < lines.len()
        invariant
            i <= lines@.len(),
            glines == lines.deep_view(),
            glines.len() == lines@.len(),
            counter <= i,
            counter as nat == spec_count(glines.take(i as int), mode),
            out@.len() == i,
            forall|j: int|
                0 <= j < i ==> out.deep_view()[j] == spec_output_line(glines, mode, j),
        decreases lines@.len() - i,
    {
        let line = &lines[i];
        proof {
            assert(glines[i as int] == line@);
            lemma_count_step(glines, mode, i as int);
        }
        let counted = match mode {
            NumberingMode::Plain => false,
            NumberingMode::AllLines => true,
            NumberingMode::NonblankLines => !line.as_str().is_empty(),
        };
        if counted {
            counter = counter + 1;
            out.push(numbered_line(counter, line));
        } else {
            out.push(line.clone());
        }
        i += 1;
    }
    proof {
        assert(out.deep_view() =~= spec_numbered(glines, mode));
    }
    out
}

} // verus!
