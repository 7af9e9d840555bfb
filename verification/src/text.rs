//! The lines that the commands show.
//!
//! Numbers are written without sign or separators; hexadecimal digits are
//! lower case. A field that is narrower than its column is padded, one that
//! is wider is written in full.

use crate::protocol::StackMarginResult;
use vstd::prelude::*;
use vstd::string::*;

verus! {

/// The character of a digit below sixteen.
pub open spec fn digit_char(d: int) -> char {
    if d == 0 {
        '0'
    } else if d == 1 {
        '1'
    } else if d == 2 {
        '2'
    } else if d == 3 {
        '3'
    } else if d == 4 {
        '4'
    } else if d == 5 {
        '5'
    } else if d == 6 {
        '6'
    } else if d == 7 {
        '7'
    } else if d == 8 {
        '8'
    } else if d == 9 {
        '9'
    } else if d == 10 {
        'a'
    } else if d == 11 {
        'b'
    } else if d == 12 {
        'c'
    } else if d == 13 {
        'd'
    } else if d == 14 {
        'e'
    } else {
        'f'
    }
}

/// The decimal digits of `n`, the most significant first.
pub open spec fn decimal(n: nat) -> Seq<char>
    decreases n,
{
    if n < 10 {
        seq![digit_char(n as int)]
    } else {
        decimal(n / 10).push(digit_char((n % 10) as int))
    }
}

/// The hexadecimal digits of `n`, the most significant first.
pub open spec fn hexadecimal(n: nat) -> Seq<char>
    decreases n,
{
    if n < 16 {
        seq![digit_char(n as int)]
    } else {
        hexadecimal(n / 16).push(digit_char((n % 16) as int))
    }
}

/// `count` times the character `fill`.
pub open spec fn repeated(fill: char, count: int) -> Seq<char> {
    Seq::new(
        if count > 0 {
            count as nat
        } else {
            0
        },
        |i: int| fill,
    )
}

/// `text` at the right of a column of the given width.
pub open spec fn flush_right(text: Seq<char>, width: int, fill: char) -> Seq<char> {
    repeated(fill, width - text.len()) + text
}

/// `text` at the left of a column of the given width.
pub open spec fn flush_left(text: Seq<char>, width: int) -> Seq<char> {
    text + repeated(' ', width - text.len())
}

/// The column titles of the stack margin table.
pub open spec fn margin_header_text() -> Seq<char> {
    flush_right("ID"@, 2, ' ') + seq![' '] + flush_left("TASK"@, 18) + seq![' '] + flush_right(
        "STACKBASE"@,
        10,
        ' ',
    ) + seq![' '] + flush_right("STACKSIZE"@, 10, ' ') + seq![' '] + flush_right(
        "MAXDEPTH"@,
        10,
        ' ',
    ) + seq![' '] + flush_right("MARGIN"@, 10, ' ')
}

/// A task's number and name, as every row of the stack margin table starts.
pub open spec fn task_columns(task: u32, name: Seq<char>) -> Seq<char> {
    flush_right(decimal(task as nat), 2, ' ') + seq![' '] + flush_left(name, 18)
}

/// The row of a measured stack: the task's number and name, the stack's
/// base in hexadecimal, and its size, depth and margin in decimal.
pub open spec fn margin_row_text(row: StackMarginResult) -> Seq<char> {
    task_columns(row.task, row.name@) + seq![' ', '0', 'x'] + flush_left(
        hexadecimal(row.base as nat),
        8,
    ) + seq![' '] + flush_right(decimal(row.size as nat), 10, ' ') + seq![' '] + flush_right(
        decimal(row.depth as nat),
        10,
        ' ',
    ) + seq![' '] + flush_right(decimal(row.margin as nat), 10, ' ')
}

/// The notice that the supervisor's part of the task table is left unread.
pub open spec fn supervisor_notice_text() -> Seq<char> {
    "skipping supervisor because we are reading over the network"@
}

/// The row of a task whose stack cannot be examined.
pub open spec fn unknown_row_text(task: u32, name: Seq<char>) -> Seq<char> {
    task_columns(task, name) + " unknown (cannot read supervisor memory remotely)"@
}

/// The line of a variable: its name, its address in eight hexadecimal
/// digits, and its rendered value.
pub open spec fn variable_row_text(name: Seq<char>, addr: u32, rendered: Seq<char>) -> Seq<char> {
    name + seq![' ', '(', '0', 'x'] + flush_right(hexadecimal(addr as nat), 8, '0') + seq![
        ')',
        ' ',
        '=',
        ' ',
    ] + rendered
}

fn digit(d: u64) -> (s: &'static str)
    requires
        d < 16,
    ensures
        s@ == seq![digit_char(d as int)],
{
    proof {
        reveal_strlit("0");
        reveal_strlit("1");
        reveal_strlit("2");
        reveal_strlit("3");
        reveal_strlit("4");
        reveal_strlit("5");
        reveal_strlit("6");
        reveal_strlit("7");
        reveal_strlit("8");
        reveal_strlit("9");
        reveal_strlit("a");
        reveal_strlit("b");
        reveal_strlit("c");
        reveal_strlit("d");
        reveal_strlit("e");
        reveal_strlit("f");
    }
    let s = if d == 0 {
        "0"
    } else if d == 1 {
        "1"
    } else if d == 2 {
        "2"
    } else if d == 3 {
        "3"
    } else if d == 4 {
        "4"
    } else if d == 5 {
        "5"
    } else if d == 6 {
        "6"
    } else if d == 7 {
        "7"
    } else if d == 8 {
        "8"
    } else if d == 9 {
        "9"
    } else if d == 10 {
        "a"
    } else if d == 11 {
        "b"
    } else if d == 12 {
        "c"
    } else if d == 13 {
        "d"
    } else if d == 14 {
        "e"
    } else {
        "f"
    };
    s
}

fn push_decimal(out: &mut String, n: u64)
    ensures
        final(out)@ == old(out)@ + decimal(n as nat),
    decreases n,
{
    if n < 10 {
        out.append(digit(n));
    } else {
        push_decimal(out, n / 10);
        out.append(digit(n % 10));
    }
}

fn push_hexadecimal(out: &mut String, n: u64)
    ensures
        final(out)@ == old(out)@ + hexadecimal(n as nat),
    decreases n,
{
    if n < 16 {
        out.append(digit(n));
    } else {
        push_hexadecimal(out, n / 16);
        out.append(digit(n % 16));
    }
}

/// Writes `n` in decimal.
pub fn decimal_text(n: u64) -> (s: String)
    ensures
        s@ == decimal(n as nat),
{
    let mut s = String::new();
    push_decimal(&mut s, n);
    s
}

/// Writes `n` in hexadecimal.
pub fn hexadecimal_text(n: u64) -> (s: String)
    ensures
        s@ == hexadecimal(n as nat),
{
    let mut s = String::new();
    push_hexadecimal(&mut s, n);
    s
}

fn push_repeated(out: &mut String, zero: bool, width: usize, taken: usize)
    ensures
        final(out)@ == old(out)@ + repeated(
            if zero {
                '0'
            } else {
                ' '
            },
            width - taken,
        ),
{
    let ghost fill = if zero {
        '0'
    } else {
        ' '
    };
    proof {
        reveal_strlit("0");
        reveal_strlit(" ");
    }
    let mut i: usize = taken;
    while i < width
        invariant
            taken <= i,
            i <= width || i == taken,
            out@ == old(out)@ + repeated(fill, i - taken),
            fill == if zero {
                '0'
            } else {
                ' '
            },
            "0"@ == seq!['0'],
            " "@ == seq![' '],
        decreases width - i,
    {
        if zero {
            out.append("0");
        } else {
            out.append(" ");
        }
        i += 1;
    }
}

fn push_flush_right(out: &mut String, text: &str, width: usize, zero: bool)
    ensures
        final(out)@ == old(out)@ + flush_right(
            text@,
            width as int,
            if zero {
                '0'
            } else {
                ' '
            },
        ),
{
    let taken = text.unicode_len();
    push_repeated(out, zero, width, taken);
    out.append(text);
}

fn push_flush_left(out: &mut String, text: &str, width: usize)
    ensures
        final(out)@ == old(out)@ + flush_left(text@, width as int),
{
    let taken = text.unicode_len();
    out.append(text);
    push_repeated(out, false, width, taken);
}

fn push_task_columns(out: &mut String, task: u32, name: &str)
    ensures
        final(out)@ == old(out)@ + task_columns(task, name@),
{
    proof {
        reveal_strlit(" ");
    }
    let number = decimal_text(task as u64);
    push_flush_right(out, number.as_str(), 2, false);
    out.append(" ");
    push_flush_left(out, name, 18);
}

fn push_count(out: &mut String, n: usize)
    ensures
        final(out)@ == old(out)@ + seq![' '] + flush_right(decimal(n as nat), 10, ' '),
{
    proof {
        reveal_strlit(" ");
    }
    let number = decimal_text(n as u64);
    out.append(" ");
    push_flush_right(out, number.as_str(), 10, false);
}

/// Writes the column titles of the stack margin table.
pub fn margin_header() -> (s: String)
    ensures
        s@ == margin_header_text(),
{
    proof {
        reveal_strlit(" ");
    }
    let mut s = String::new();
    push_flush_right(&mut s, "ID", 2, false);
    s.append(" ");
    push_flush_left(&mut s, "TASK", 18);
    s.append(" ");
    push_flush_right(&mut s, "STACKBASE", 10, false);
    s.append(" ");
    push_flush_right(&mut s, "STACKSIZE", 10, false);
    s.append(" ");
    push_flush_right(&mut s, "MAXDEPTH", 10, false);
    s.append(" ");
    push_flush_right(&mut s, "MARGIN", 10, false);
    s
}

/// Writes the row of a measured stack.
pub fn margin_row(row: &StackMarginResult) -> (s: String)
    ensures
        s@ == margin_row_text(*row),
{
    proof {
        reveal_strlit(" 0x");
    }
    let mut s = String::new();
    push_task_columns(&mut s, row.task, row.name.as_str());
    s.append(" 0x");
    let base = hexadecimal_text(row.base as u64);
    push_flush_left(&mut s, base.as_str(), 8);
    push_count(&mut s, row.size);
    push_count(&mut s, row.depth);
    push_count(&mut s, row.margin);
    s
}

/// Writes the notice that the supervisor's part of the task table is left
/// unread.
pub fn supervisor_notice() -> (s: String)
    ensures
        s@ == supervisor_notice_text(),
{
    let mut s = String::new();
    s.append("skipping supervisor because we are reading over the network");
    s
}

/// Writes the row of a task whose stack cannot be examined.
pub fn unknown_row(task: u32, name: &str) -> (s: String)
    ensures
        s@ == unknown_row_text(task, name@),
{
    let mut s = String::new();
    push_task_columns(&mut s, task, name);
    s.append(" unknown (cannot read supervisor memory remotely)");
    s
}

/// Writes the line of a variable from its name, its address and its value
/// as the database rendered it.
pub fn variable_row(name: &str, addr: u32, rendered: &str) -> (s: String)
    ensures
        s@ == variable_row_text(name@, addr, rendered@),
{
    proof {
        reveal_strlit(" (0x");
        reveal_strlit(") = ");
    }
    let mut s = String::new();
    s.append(name);
    s.append(" (0x");
    let digits = hexadecimal_text(addr as u64);
    push_flush_right(&mut s, digits.as_str(), 8, true);
    s.append(") = ");
    s.append(rendered);
    s
}

} // verus!
