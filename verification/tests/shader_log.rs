use foxtail::rendering::shader_log::{
    compile_failure, find_line_index, find_symbol, format_shader_errors,
};
use foxtail::rendering::text::{
    chars_of, contains, lines, parse_usize, replace, same, space, split, string_of, to_decimal,
    trim,
};

fn text(s: &str) -> Vec<char> {
    s.chars().collect()
}

fn strings(v: Vec<Vec<char>>) -> Vec<String> {
    v.into_iter().map(|l| l.into_iter().collect()).collect()
}

/// The report as the standard library's string functions make it, for logs
/// whose lines each name a symbol of at least one character or none.
fn report_by_std(src: &str, log: &str) -> String {
    let src_split = src.lines().collect::<Vec<&str>>();
    let mut out = String::new();
    for line in log.lines() {
        let parts = line.split(':').collect::<Vec<&str>>();
        let at = parts
            .first()
            .map(|s| {
                let mut s = s.trim().to_string();
                s = s.replace("0(", "");
                s.pop();
                s.parse::<usize>().map(|i| i.wrapping_sub(1)).unwrap_or(0)
            })
            .unwrap_or(0);
        let code = parts.get(1).map(|s| s.trim().replace("error ", "")).unwrap_or_default();
        let message = parts.get(2).map(|s| s.trim()).unwrap_or("");
        let mut name: Option<String> = None;
        if code == "C1503" && message.contains("undefined variable") {
            let quoted = message.replace("undefined variable", "").trim().to_string();
            let inner: Vec<char> = quoted.chars().collect();
            if inner.len() > 2 {
                name = Some(inner[1..inner.len() - 1].iter().collect());
            }
        }
        out.push_str("\x1b[1;31m");
        out.push_str(line);
        out.push_str("\x1b[0m");
        out.push('\n');
        let min = at.wrapping_sub(1).min(at);
        let max = at.wrapping_add(1).max(at);
        let number = at.wrapping_add(1).to_string();
        for i in min..=max {
            out.push_str("\x1b[1;36m");
            if i == at {
                out.push_str(&format!(" {} | ", number));
            } else {
                for _ in 0..(number.len() + 2) {
                    out.push(' ');
                }
                out.push_str("| ");
            }
            out.push_str("\x1b[22;0m");
            let mut code_line = src_split.get(i).copied().unwrap_or("CODE NOT FOUND").to_string();
            if let Some(name) = name.as_ref() {
                code_line = code_line.replace(name, &format!("\x1b[1;33m{}\x1b[22;0m", name));
            }
            out.push_str(&code_line);
            if i == at {
                out.push_str("\x1b[1;31m <- Error occurs here\x1b[22;0m");
            }
            out.push('\n');
        }
        out.push('\n');
    }
    out
}

const SOURCE: &str = "#version 450\nvoid main() {\n    foo = 1;\n}\n";

#[test]
fn an_undefined_variable_is_shown_in_its_line_and_set_off() {
    let log = "0(3) : error C1503: undefined variable \"foo\"\n";
    let expected = "\x1b[1;31m0(3) : error C1503: undefined variable \"foo\"\x1b[0m\n\
\x1b[1;36m   | \x1b[22;0mvoid main() {\n\
\x1b[1;36m 3 | \x1b[22;0m    \x1b[1;33mfoo\x1b[22;0m = 1;\x1b[1;31m <- Error occurs here\x1b[22;0m\n\
\x1b[1;36m   | \x1b[22;0m}\n\
\n";
    assert_eq!(format_shader_errors(SOURCE, log), expected);
}

#[test]
fn the_first_line_has_no_line_before_it() {
    let log = "0(1) : error C0000: syntax error";
    let expected = "\x1b[1;31m0(1) : error C0000: syntax error\x1b[0m\n\
\x1b[1;36m 1 | \x1b[22;0m#version 450\x1b[1;31m <- Error occurs here\x1b[22;0m\n\
\x1b[1;36m   | \x1b[22;0mvoid main() {\n\
\n";
    assert_eq!(format_shader_errors(SOURCE, log), expected);
}

#[test]
fn a_line_beyond_the_source_is_reported_as_not_found() {
    let log = "0(12) : error C0000: syntax error";
    let expected = "\x1b[1;31m0(12) : error C0000: syntax error\x1b[0m\n\
\x1b[1;36m    | \x1b[22;0mCODE NOT FOUND\n\
\x1b[1;36m 12 | \x1b[22;0mCODE NOT FOUND\x1b[1;31m <- Error occurs here\x1b[22;0m\n\
\x1b[1;36m    | \x1b[22;0mCODE NOT FOUND\n\
\n";
    assert_eq!(format_shader_errors(SOURCE, log), expected);
}

#[test]
fn an_empty_log_gives_an_empty_report() {
    assert_eq!(format_shader_errors(SOURCE, ""), "");
}

#[test]
fn a_line_without_a_number_points_at_the_first_line() {
    let log = "something went wrong";
    let expected = "\x1b[1;31msomething went wrong\x1b[0m\n\
\x1b[1;36m 1 | \x1b[22;0m#version 450\x1b[1;31m <- Error occurs here\x1b[22;0m\n\
\x1b[1;36m   | \x1b[22;0mvoid main() {\n\
\n";
    assert_eq!(format_shader_errors(SOURCE, log), expected);
}

#[test]
fn line_number_zero_points_at_no_line() {
    assert_eq!(find_line_index(&text("0(0) : error C0000: x")), usize::MAX);
    let out = format_shader_errors(SOURCE, "0(0) : error C0000: x");
    assert_eq!(out, report_by_std(SOURCE, "0(0) : error C0000: x"));
    assert_eq!(out.matches("CODE NOT FOUND").count(), 2);
    assert!(out.contains(" 0 | "));
}

#[test]
fn the_report_agrees_with_the_standard_string_functions() {
    let sources = [
        SOURCE,
        "",
        "a\r\nb\r\nc",
        "one\n\ntwo foo foo\nfoofoo\n",
        "x\ry\n z \n",
    ];
    let logs = [
        "0(3) : error C1503: undefined variable \"foo\"\n",
        "0(2) : error C1503: undefined variable \"foo\"\n0(4) : error C1503: undefined variable \"two\"\n",
        "0(1) : warning C7000: something\r\n0(2) : error C1008: other\r\n",
        "   0(3)   :   error   C1503  :   undefined variable   \"y\"  : extra : more",
        "garbage",
        ":::",
        "0(+2) : error C1503: undefined variable \"a\"",
        "0(99999999999999999999999) : error C1: too big",
        "0(0(0(7))) : error error C1503: undefined variable undefined variable \"oo\"",
        "\n\n0(1) : e\n\n",
        "0(18446744073709551615) : x",
        "(2) : error C1503: undefined variable 'b'",
        "0(2 ) : error C1503: undefined variable..",
    ];
    for src in sources.iter() {
        for log in logs.iter() {
            assert_eq!(format_shader_errors(src, log), report_by_std(src, log), "{:?} {:?}", src, log);
        }
    }
}

#[test]
fn a_name_of_no_characters_is_not_set_off() {
    assert_eq!(find_symbol(&text("0(1) : error C1503: undefined variable \"\"")), None);
    assert_eq!(find_symbol(&text("0(1) : error C1503: undefined variable")), None);
    assert_eq!(find_symbol(&text("0(1) : error C1503: undefined variable x")), None);
    assert_eq!(
        find_symbol(&text("0(1) : error C1503: undefined variable \"v\"")),
        Some(text("v"))
    );
    assert_eq!(find_symbol(&text("0(1) : error C1504: undefined variable \"v\"")), None);
    assert_eq!(find_symbol(&text("0(1) : error C1503: unknown \"v\"")), None);
}

#[test]
fn the_line_index_is_the_number_less_one() {
    assert_eq!(find_line_index(&text("0(3) : error")), 2);
    assert_eq!(find_line_index(&text("0(1)")), 0);
    assert_eq!(find_line_index(&text("")), 0);
    assert_eq!(find_line_index(&text("0(x) : error")), 0);
    assert_eq!(find_line_index(&text("  0(250)  : error")), 249);
}

#[test]
fn a_compile_failure_names_the_shader_and_reports() {
    let log = "0(3) : error C1503: undefined variable \"foo\"\n";
    let expected = format!(
        "Failed to compile shader (`{}`)! Errors:\n{}",
        "quad.vs",
        report_by_std(SOURCE, log)
    );
    assert_eq!(compile_failure("quad.vs", SOURCE, log), expected);
}

#[test]
fn lines_are_those_of_the_standard_library() {
    for s in ["", "a", "a\n", "a\nb", "a\r\nb\r\n", "a\r", "\n", "\n\n", "\r\n", "a\n\nb\n", "a\rb\n", "x\r\r\ny"] {
        let expected: Vec<String> = s.lines().map(|l| l.to_string()).collect();
        assert_eq!(strings(lines(&text(s))), expected, "{:?}", s);
    }
}

#[test]
fn pieces_are_those_of_the_standard_library() {
    for s in ["", ":", "a:b", "a::b:", ":a", "abc", "a:b:c:d"] {
        let expected: Vec<String> = s.split(':').map(|l| l.to_string()).collect();
        assert_eq!(strings(split(&text(s), ':')), expected, "{:?}", s);
    }
}

#[test]
fn trimming_is_that_of_the_standard_library() {
    for s in ["", " ", "  a  ", "\t\na b\r\n", "a", "\u{a0}x\u{3000}", "\u{85}\u{1680}y\u{2028}\u{2029}\u{202f}\u{205f}", "\u{200b}z", "\u{2000}\u{200a}w"] {
        let got: String = trim(&text(s)).into_iter().collect();
        assert_eq!(got, s.trim(), "{:?}", s);
    }
    for u in 0u32..0x3100 {
        if let Some(c) = char::from_u32(u) {
            assert_eq!(space(c), c.is_whitespace(), "{:x}", u);
        }
    }
}

#[test]
fn replacing_is_that_of_the_standard_library() {
    for (s, pat, with) in [
        ("0(3)", "0(", ""),
        ("aaaa", "aa", "b"),
        ("aaa", "aa", "b"),
        ("abcabc", "bc", "xyz"),
        ("abc", "abcd", "x"),
        ("", "a", "b"),
        ("error error C1", "error ", ""),
        ("foo foofoo", "foo", "[foo]"),
    ] {
        let got: String = replace(&text(s), &text(pat), &text(with)).into_iter().collect();
        assert_eq!(got, s.replace(pat, with), "{:?} {:?} {:?}", s, pat, with);
    }
    let kept: String = replace(&text("abc"), &text(""), &text("x")).into_iter().collect();
    assert_eq!(kept, "abc");
}

#[test]
fn finding_is_that_of_the_standard_library() {
    for (s, pat) in [("", ""), ("abc", ""), ("abc", "bc"), ("abc", "cd"), ("abc", "abcd"), ("aab", "ab"), ("", "a")] {
        assert_eq!(contains(&text(s), &text(pat)), s.contains(pat), "{:?} {:?}", s, pat);
    }
}

#[test]
fn parsing_is_that_of_the_standard_library() {
    for s in ["", "+", "0", "+0", "007", "12", "+12", "-1", "1 ", " 1", "1_0", "12a", "18446744073709551615", "18446744073709551616", "99999999999999999999999", "++1", "٣"] {
        assert_eq!(parse_usize(&text(s)), s.parse::<usize>().ok(), "{:?}", s);
    }
}

#[test]
fn decimal_writing_is_that_of_the_standard_library() {
    for n in [0usize, 1, 9, 10, 11, 99, 100, 12345, usize::MAX, usize::MAX - 1] {
        let got: String = to_decimal(n).into_iter().collect();
        assert_eq!(got, n.to_string());
    }
}

#[test]
fn characters_go_to_strings_and_back() {
    assert_eq!(chars_of("héllo"), text("héllo"));
    assert_eq!(string_of(&text("héllo")), "héllo");
    assert!(same(&text("abc"), &text("abc")));
    assert!(!same(&text("abc"), &text("abd")));
    assert!(!same(&text("abc"), &text("ab")));
}
