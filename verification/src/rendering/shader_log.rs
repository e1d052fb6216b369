//! Diagnostics for shaders that do not compile.
//!
//! A driver reports each error on a line of its own, in the form
//! `0(LINE) : error CODE: MESSAGE`. The report made here repeats each such
//! line and shows under it the line of the source that it points at, with
//! the line before and the line after.

use vstd::prelude::*;
use super::text::{
    append, chars_of, contains, decimal, lines, lines_of, occurs, parse_usize,
    parsed, pieces, replace, replaced, same, slice, split, string_of, texts, to_decimal, trim,
    trimmed,
};

verus! {

/// The index, from 0, of the source line that a line of the log points at:
/// the number between `0(` and `)` in what stands before the first colon,
/// less one. Where no number stands there it is 0; the number 0 points
/// at no line of any source.
pub open spec fn line_index(line: Seq<char>) -> usize {
    let head = replaced(trimmed(pieces(line, ':')[0]), "0("@, Seq::empty());
    let inner = if head.len() > 0 {
        head.drop_last()
    } else {
        head
    };
    match parsed(inner) {
        Some(n) => if n == 0 {
            usize::MAX
        } else {
            (n - 1) as usize
        },
        None => 0,
    }
}

/// The error code of a line of the log: what stands between the first colon
/// and the second, without the word `error`.
pub open spec fn error_code(line: Seq<char>) -> Seq<char> {
    let p = pieces(line, ':');
    if p.len() > 1 {
        replaced(trimmed(p[1]), "error "@, Seq::empty())
    } else {
        Seq::empty()
    }
}

/// The message of a line of the log: what stands between the second colon
/// and the third.
pub open spec fn message(line: Seq<char>) -> Seq<char> {
    let p = pieces(line, ':');
    if p.len() > 2 {
        trimmed(p[2])
    } else {
        Seq::empty()
    }
}

/// The name that a line of the log complains of, where it gives one: the
/// quoted name in the message of an error `C1503`, "undefined variable".
pub open spec fn symbol(line: Seq<char>) -> Option<Seq<char>> {
    if error_code(line) == "C1503"@ && occurs(message(line), "undefined variable"@) {
        let quoted = trimmed(replaced(message(line), "undefined variable"@, Seq::empty()));
        if quoted.len() > 2 {
            Some(quoted.subrange(1, quoted.len() - 1))
        } else {
            None
        }
    } else {
        None
    }
}

/// Line `i` of the source, or a note that the source has no such line.
pub open spec fn code_line(src: Seq<Seq<char>>, i: usize) -> Seq<char> {
    if i < src.len() {
        src[i as int]
    } else {
        "CODE NOT FOUND"@
    }
}

/// The number that the line at index `at` is shown under.
pub open spec fn shown_number(at: usize) -> Seq<char> {
    decimal(
        if at == usize::MAX {
            0
        } else {
            (at + 1) as nat
        },
    )
}

/// What stands before the code in row `i`: the number of the line in the
/// row that the error lies in, and as much blank space in the others.
pub open spec fn gutter(at: usize, i: usize) -> Seq<char> {
    if i == at {
        " "@ + shown_number(at) + " | "@
    } else {
        Seq::new(shown_number(at).len() + 2, |k: int| ' ') + "| "@
    }
}

/// `code` with every `name` in it set off in color.
pub open spec fn highlighted(code: Seq<char>, name: Option<Seq<char>>) -> Seq<char> {
    match name {
        Some(n) => replaced(code, n, "\x1b[1;33m"@ + n + "\x1b[22;0m"@),
        None => code,
    }
}

/// The row that shows line `i` of the source under an error at line `at`.
pub open spec fn row(src: Seq<Seq<char>>, at: usize, name: Option<Seq<char>>, i: usize) -> Seq<
    char,
> {
    "\x1b[1;36m"@ + gutter(at, i) + "\x1b[22;0m"@ + highlighted(code_line(src, i), name) + (if i
        == at {
        "\x1b[1;31m <- Error occurs here\x1b[22;0m"@
    } else {
        Seq::empty()
    }) + "\n"@
}

/// What the report says of one line of the log: the line itself, then the
/// source line that it points at between its two neighbours, as far as the
/// index has any, then an empty line.
pub open spec fn entry(src: Seq<Seq<char>>, line: Seq<char>) -> Seq<char> {
    let at = line_index(line);
    let name = symbol(line);
    "\x1b[1;31m"@ + line + "\x1b[0m"@ + "\n"@ + (if at > 0 {
        row(src, at, name, (at - 1) as usize)
    } else {
        Seq::empty()
    }) + row(src, at, name, at) + (if at < usize::MAX {
        row(src, at, name, (at + 1) as usize)
    } else {
        Seq::empty()
    }) + "\n"@
}

/// The report on a log, line by line.
pub open spec fn report(src: Seq<Seq<char>>, log: Seq<Seq<char>>) -> Seq<char>
    decreases log.len(),
{
    if log.len() == 0 {
        Seq::empty()
    } else {
        report(src, log.drop_last()) + entry(src, log.last())
    }
}

/// The index of the source line that `line` points at.
pub fn find_line_index(line: &Vec<char>) -> (at: usize)
    ensures
        at == line_index(line@),
{
    let p = split(line, ':');
    let head = replace(&trim(&p[0]), &chars_of("0("), &Vec::new());
    let inner = if head.len() > 0 {
        slice(&head, 0, head.len() - 1)
    } else {
        slice(&head, 0, 0)
    };
    proof {
        assert(texts(p@)[0] == p[0]@);
        assert(inner@ =~= (if head@.len() > 0 {
            head@.drop_last()
        } else {
            head@
        }));
    }
    match parse_usize(&inner) {
        Some(n) => if n == 0 {
            usize::MAX
        } else {
            n - 1
        },
        None => 0,
    }
}

/// The name that `line` complains of, where it gives one.
pub fn find_symbol(line: &Vec<char>) -> (name: Option<Vec<char>>)
    ensures
        match name {
            Some(n) => symbol(line@) == Some(n@),
            None => symbol(line@) is None,
        },
{
    let p = split(line, ':');
    let empty: Vec<char> = Vec::new();
    let code = if p.len() > 1 {
        replace(&trim(&p[1]), &chars_of("error "), &empty)
    } else {
        Vec::new()
    };
    let text = if p.len() > 2 {
        trim(&p[2])
    } else {
        Vec::new()
    };
    proof {
        if p.len() > 1 {
            assert(texts(p@)[1] == p[1]@);
        }
        if p.len() > 2 {
            assert(texts(p@)[2] == p[2]@);
        }
        assert(code@ =~= error_code(line@));
        assert(text@ =~= message(line@));
    }
    let undefined = chars_of("undefined variable");
    if same(&code, &chars_of("C1503")) && contains(&text, &undefined) {
        let quoted = trim(&replace(&text, &undefined, &empty));
        if quoted.len() > 2 {
            Some(slice(&quoted, 1, quoted.len() - 1))
        } else {
            None
        }
    } else {
        None
    }
}

/// Append the row that shows line `i` of the source under an error at line
/// `at`.
fn push_row(out: &mut Vec<char>, src: &Vec<Vec<char>>, at: usize, name: &Option<Vec<char>>, i: usize)
    ensures
        final(out)@ == old(out)@ + row(
            texts(src@),
            at,
            match name {
                Some(n) => Some(n@),
                None => None,
            },
            i,
        ),
{
    let ghost lines = texts(src@);
    let ghost name_view: Option<Seq<char>> = match name {
        Some(n) => Some(n@),
        None => None,
    };
    let mut r: Vec<char> = chars_of("\x1b[1;36m");
    let number = to_decimal(
        if at == usize::MAX {
            0
        } else {
            at + 1
        },
    );
    if i == at {
        append(&mut r, &chars_of(" "));
        append(&mut r, &number);
        append(&mut r, &chars_of(" | "));
    } else {
        let ghost start = r@;
        let mut k: usize = 0;
        while k < number.len() + 2
            invariant
                k <= number.len() + 2,
                number.len() <= 20,
                r@ == start + Seq::new(k as nat, |j: int| ' '),
            decreases number.len() + 2 - k,
        {
            r.push(' ');
            k += 1;
            assert(r@ =~= start + Seq::new(k as nat, |j: int| ' '));
        }
        append(&mut r, &chars_of("| "));
    }
    assert(r@ =~= "\x1b[1;36m"@ + gutter(at, i));
    append(&mut r, &chars_of("\x1b[22;0m"));
    let code = if i < src.len() {
        assert(lines[i as int] == src[i as int]@);
        slice(&src[i], 0, src[i].len())
    } else {
        chars_of("CODE NOT FOUND")
    };
    assert(code@ =~= code_line(lines, i));
    let shown = match name {
        Some(n) => {
            let mut with = chars_of("\x1b[1;33m");
            append(&mut with, n);
            append(&mut with, &chars_of("\x1b[22;0m"));
            replace(&code, n, &with)
        },
        None => code,
    };
    assert(shown@ == highlighted(code_line(lines, i), name_view));
    append(&mut r, &shown);
    if i == at {
        append(&mut r, &chars_of("\x1b[1;31m <- Error occurs here\x1b[22;0m"));
    }
    append(&mut r, &chars_of("\n"));
    assert(r@ =~= row(lines, at, name_view, i));
    append(out, &r);
}

/// Append what the report says of `line`.
fn push_entry(out: &mut Vec<char>, src: &Vec<Vec<char>>, line: &Vec<char>)
    ensures
        final(out)@ == old(out)@ + entry(texts(src@), line@),
{
    let at = find_line_index(line);
    let name = find_symbol(line);
    let mut e: Vec<char> = chars_of("\x1b[1;31m");
    append(&mut e, line);
    append(&mut e, &chars_of("\x1b[0m"));
    append(&mut e, &chars_of("\n"));
    if at > 0 {
        push_row(&mut e, src, at, &name, at - 1);
    }
    push_row(&mut e, src, at, &name, at);
    if at < usize::MAX {
        push_row(&mut e, src, at, &name, at + 1);
    }
    append(&mut e, &chars_of("\n"));
    assert(e@ =~= entry(texts(src@), line@));
    append(out, &e);
}

/// The report on the errors that the driver's `log` lists for the source
/// `src`.
pub fn format_shader_errors(src: &str, log: &str) -> (out: String)
    ensures
        out@ == report(lines_of(src@), lines_of(log@)),
{
    let src_lines = lines(&chars_of(src));
    let log_lines = lines(&chars_of(log));
    let mut out: Vec<char> = Vec::new();
    let mut i: usize = 0;
    while i < log_lines.len()
        invariant
            i <= log_lines.len(),
            out@ == report(texts(src_lines@), texts(log_lines@).take(i as int)),
        decreases log_lines.len() - i,
    {
        push_entry(&mut out, &src_lines, &log_lines[i]);
        proof {
            let log = texts(log_lines@);
            assert(log.take(i + 1).drop_last() =~= log.take(i as int));
            assert(log.take(i + 1).last() == log_lines[i as int]@);
        }
        i += 1;
    }
    assert(texts(log_lines@).take(i as int) =~= texts(log_lines@));
    string_of(&out)
}

/// What to say of the shader `name` when it does not compile: that it
/// failed, and the report on the driver's `log`.
pub open spec fn failure(name: Seq<char>, src: Seq<char>, log: Seq<char>) -> Seq<char> {
    "Failed to compile shader (`"@ + name + "`)! Errors:\n"@ + report(lines_of(src), lines_of(log))
}

/// The message that the process stops with when the shader `name`, of
/// source `src`, does not compile and the driver's log is `log`.
pub fn compile_failure(name: &str, src: &str, log: &str) -> (out: String)
    ensures
        out@ == failure(name@, src@, log@),
{
    let mut m: Vec<char> = chars_of("Failed to compile shader (`");
    append(&mut m, &chars_of(name));
    append(&mut m, &chars_of("`)! Errors:\n"));
    append(&mut m, &chars_of(format_shader_errors(src, log).as_str()));
    string_of(&m)
}

} // verus!
