//! Rendering of cmake configuration header templates (`#cmakedefine`).
use vstd::prelude::*;
use crate::text::{chars_of, push_str_chars, string_from_chars, string_push};

verus! {

/// Why a `#cmakedefine` line could not be rendered.
#[derive(Debug, PartialEq, Eq)]
pub enum TemplateError {
    /// The line names no variable.
    MissingName,
    /// The line carries more than the variable name (a value form).
    Extended,
    /// The lookup knows nothing of the named variable.
    UnknownName(String),
}

/// A string slice as its `Debug` formatting writes it: in double quotes,
/// with the characters that `char::escape_debug` escapes escaped.
pub uninterp spec fn debug_quoted(s: Seq<char>) -> Seq<char>;

/// `<str as Debug>::fmt`, through `format!("{:?}", ..)`: the contract claims
/// only that the result is the named quoted form of the slice, a function of
/// its characters alone.
#[verifier::external_body]
fn str_debug(s: &str) -> (r: String)
    ensures
        r@ == debug_quoted(s@),
{
    format!("{:?}", s)
}

impl TemplateError {
    /// The text of the error.
    pub open spec fn text(&self) -> Seq<char> {
        match self {
            TemplateError::MissingName => "missing VAR name"@,
            TemplateError::Extended => "extended #cmakedefine not supported"@,
            TemplateError::UnknownName(n) => "unknown define name: "@ + debug_quoted(n@),
        }
    }

    /// The text of the error, as it is reported.
    pub fn message(&self) -> (r: String)
        ensures
            r@ == self.text(),
    {
        match self {
            TemplateError::MissingName => "missing VAR name".to_string(),
            TemplateError::Extended => "extended #cmakedefine not supported".to_string(),
            TemplateError::UnknownName(n) => {
                let mut out = "unknown define name: ".to_string();
                let quoted = str_debug(n.as_str());
                push_str_chars(&mut out, quoted.as_str());
                out
            },
        }
    }
}

/// Unicode white space, as `char::is_whitespace` defines it.
pub open spec fn is_white(c: char) -> bool {
    ||| ('\u{9}' <= c && c <= '\u{d}')
    ||| c == ' '
    ||| c == '\u{85}'
    ||| c == '\u{a0}'
    ||| c == '\u{1680}'
    ||| ('\u{2000}' <= c && c <= '\u{200a}')
    ||| c == '\u{2028}'
    ||| c == '\u{2029}'
    ||| c == '\u{202f}'
    ||| c == '\u{205f}'
    ||| c == '\u{3000}'
}

/// `char::is_whitespace`.
pub fn is_whitespace(c: char) -> (r: bool)
    ensures
        r == is_white(c),
{
    ('\u{9}' <= c && c <= '\u{d}') || c == ' ' || c == '\u{85}' || c == '\u{a0}' || c
        == '\u{1680}' || ('\u{2000}' <= c && c <= '\u{200a}') || c == '\u{2028}' || c
        == '\u{2029}' || c == '\u{202f}' || c == '\u{205f}' || c == '\u{3000}'
}

/// Scans `s` left to right, splitting at white space: the finished words
/// and the word still being read.
pub open spec fn word_scan(s: Seq<char>) -> (Seq<Seq<char>>, Seq<char>)
    decreases s.len(),
{
    if s.len() == 0 {
        (seq![], seq![])
    } else {
        let (done, cur) = word_scan(s.drop_last());
        if is_white(s.last()) {
            if cur.len() > 0 {
                (done.push(cur), seq![])
            } else {
                (done, seq![])
            }
        } else {
            (done, cur.push(s.last()))
        }
    }
}

/// The white-space separated words of `s` (`str::split_whitespace`).
pub open spec fn words(s: Seq<char>) -> Seq<Seq<char>> {
    let (done, cur) = word_scan(s);
    if cur.len() > 0 {
        done.push(cur)
    } else {
        done
    }
}

/// Drops one trailing carriage return.
pub open spec fn strip_cr(l: Seq<char>) -> Seq<char> {
    if l.len() > 0 && l.last() == '\r' {
        l.drop_last()
    } else {
        l
    }
}

/// Scans `s` left to right, splitting at line feeds: the finished lines
/// (without their `\r\n` or `\n` ending) and the line still being read.
pub open spec fn line_scan(s: Seq<char>) -> (Seq<Seq<char>>, Seq<char>)
    decreases s.len(),
{
    if s.len() == 0 {
        (seq![], seq![])
    } else {
        let (done, cur) = line_scan(s.drop_last());
        if s.last() == '\n' {
            (done.push(strip_cr(cur)), seq![])
        } else {
            (done, cur.push(s.last()))
        }
    }
}

/// The lines of `s` (`str::lines`): a last line without a line feed counts
/// when it is not empty, and keeps a trailing carriage return.
pub open spec fn text_lines(s: Seq<char>) -> Seq<Seq<char>> {
    let (done, cur) = line_scan(s);
    if cur.len() > 0 {
        done.push(cur)
    } else {
        done
    }
}

/// The marker that opens a define line.
pub open spec fn define_marker() -> Seq<char> {
    seq!['#', 'c', 'm', 'a', 'k', 'e', 'd', 'e', 'f', 'i', 'n', 'e', ' ']
}

pub open spec fn is_define_line(l: Seq<char>) -> bool {
    l.len() >= 13 && l.take(13) == define_marker()
}

pub open spec fn define_args_of(l: Seq<char>) -> Seq<char> {
    l.skip(13)
}

/// The text that replaces a define line of variable `name` with value `b`.
pub open spec fn define_text(name: Seq<char>, b: bool) -> Seq<char> {
    if b {
        "#define "@ + name
    } else {
        "/* #undef "@ + name + " */"@
    }
}

pub open spec fn result_chars(r: Result<String, TemplateError>) -> Result<Seq<char>, TemplateError> {
    match r {
        Ok(s) => Ok(s@),
        Err(e) => Err(e),
    }
}

/// What a define line with arguments `args` renders to, given that the
/// lookup answered `v` for its variable.
pub open spec fn define_outcome(name: Seq<char>, v: Option<bool>, r: Result<Seq<char>, TemplateError>) -> bool {
    match v {
        None => r matches Err(TemplateError::UnknownName(n)) && n@ == name,
        Some(b) => r == Ok::<Seq<char>, TemplateError>(define_text(name, b)),
    }
}

/// `r` is a rendering of the define arguments `args` under the lookup `f`.
pub open spec fn define_rendered<F: Fn(&str) -> Option<bool>>(
    args: Seq<char>,
    f: F,
    r: Result<Seq<char>, TemplateError>,
) -> bool {
    let ws = words(args);
    if ws.len() == 0 {
        r == Err::<Seq<char>, TemplateError>(TemplateError::MissingName)
    } else if ws.len() > 1 {
        r == Err::<Seq<char>, TemplateError>(TemplateError::Extended)
    } else {
        exists|s: &str, v: Option<bool>|
            s@ == ws[0] && #[trigger] call_ensures(f, (s,), v) && define_outcome(ws[0], v, r)
    }
}

/// A define line with arguments `args` renders whatever the lookup answers.
pub open spec fn define_succeeds<F: Fn(&str) -> Option<bool>>(args: Seq<char>, f: F) -> bool {
    let ws = words(args);
    &&& ws.len() == 1
    &&& forall|s: &str, v: Option<bool>|
        s@ == ws[0] && #[trigger] call_ensures(f, (s,), v) ==> v is Some
}

/// `o` is the rendering of the template line `l` under the lookup `f`.
pub open spec fn line_rendered<F: Fn(&str) -> Option<bool>>(l: Seq<char>, o: Seq<char>, f: F) -> bool {
    if is_define_line(l) {
        define_rendered(define_args_of(l), f, Ok(o))
    } else {
        o == l
    }
}

/// The template line `l` renders under the lookup `f`.
pub open spec fn line_renders<F: Fn(&str) -> Option<bool>>(l: Seq<char>, f: F) -> bool {
    exists|o: Seq<char>| #[trigger] line_rendered(l, o, f)
}

/// Rendered lines, each followed by a line feed.
pub open spec fn join_lines(ls: Seq<Seq<char>>) -> Seq<char>
    decreases ls.len(),
{
    if ls.len() == 0 {
        seq![]
    } else {
        join_lines(ls.drop_last()) + ls.last() + seq!['\n']
    }
}

/// The words of `s`, in order (`str::split_whitespace`).
pub fn split_words(s: &Vec<char>) -> (r: Vec<Vec<char>>)
    ensures
        r@.map_values(|x: Vec<char>| x@) == words(s@),
{
    let mut done: Vec<Vec<char>> = Vec::new();
    let mut cur: Vec<char> = Vec::new();
    for i in 0..s.len()
        invariant
            word_scan(s@.take(i as int)) == (done@.map_values(|x: Vec<char>| x@), cur@),
    {
        let c = s[i];
        assert(s@.take(i + 1).drop_last() == s@.take(i as int));
        if is_whitespace(c) {
            if cur.len() > 0 {
                let ghost old_done = done@.map_values(|x: Vec<char>| x@);
                done.push(cur);
                assert(done@.map_values(|x: Vec<char>| x@) =~= old_done.push(cur@));
                cur = Vec::new();
            } else {
                cur = Vec::new();
            }
        } else {
            cur.push(c);
        }
    }
    assert(s@.take(s.len() as int) == s@);
    if cur.len() > 0 {
        let ghost old_done = done@.map_values(|x: Vec<char>| x@);
        done.push(cur);
        assert(done@.map_values(|x: Vec<char>| x@) =~= old_done.push(cur@));
    }
    done
}

/// The lines of `s`, in order (`str::lines`).
pub fn split_lines(s: &Vec<char>) -> (r: Vec<Vec<char>>)
    ensures
        r@.map_values(|x: Vec<char>| x@) == text_lines(s@),
{
    let mut done: Vec<Vec<char>> = Vec::new();
    let mut cur: Vec<char> = Vec::new();
    for i in 0..s.len()
        invariant
            line_scan(s@.take(i as int)) == (done@.map_values(|x: Vec<char>| x@), cur@),
    {
        let c = s[i];
        assert(s@.take(i + 1).drop_last() == s@.take(i as int));
        if c == '\n' {
            if cur.len() > 0 && cur[cur.len() - 1] == '\r' {
                cur.pop();
            }
            let ghost old_done = done@.map_values(|x: Vec<char>| x@);
            done.push(cur);
            assert(done@.map_values(|x: Vec<char>| x@) =~= old_done.push(cur@));
            cur = Vec::new();
        } else {
            cur.push(c);
        }
    }
    assert(s@.take(s.len() as int) == s@);
    if cur.len() > 0 {
        let ghost old_done = done@.map_values(|x: Vec<char>| x@);
        done.push(cur);
        assert(done@.map_values(|x: Vec<char>| x@) =~= old_done.push(cur@));
    }
    done
}

/// Renders a single #cmakedefine line from its arguments (the text after
/// the marker).
///
/// Defines with values (ex. `#cmakedefine FOO_STRING "@FOO_STRING@"`) are
/// not supported.
pub fn render_template_define<F: Fn(&str) -> Option<bool>>(
    define_args: &str,
    get_define_value: &F,
) -> (r: Result<String, TemplateError>)
    requires
        forall|s: &str| call_requires(*get_define_value, (s,)),
    ensures
        define_rendered(define_args@, *get_define_value, result_chars(r)),
{
    let args = chars_of(define_args);
    let ws = split_words(&args);
    if ws.len() == 0 {
        return Err(TemplateError::MissingName);
    }
    if ws.len() > 1 {
        return Err(TemplateError::Extended);
    }
    let name = string_from_chars(&ws[0]);
    assert(name@ == words(define_args@)[0]);
    let value = get_define_value(name.as_str());
    match value {
        None => {
            let r = Err(TemplateError::UnknownName(name));
            assert(define_outcome(words(define_args@)[0], value, result_chars(r)));
            r
        },
        Some(b) => {
            let mut out = String::new();
            if b {
                out.append("#define ");
                out.append(name.as_str());
            } else {
                out.append("/* #undef ");
                out.append(name.as_str());
                out.append(" */");
            }
            let r = Ok(out);
            assert(define_outcome(words(define_args@)[0], value, result_chars(r)));
            r
        },
    }
}

/// Whether the line starts with the define marker; the arguments after it.
fn define_line_args(line: &Vec<char>) -> (r: Option<String>)
    ensures
        r is Some <==> is_define_line(line@),
        r matches Some(a) ==> a@ == define_args_of(line@),
{
    if line.len() < 13 {
        return None;
    }
    let marker: [char; 13] = ['#', 'c', 'm', 'a', 'k', 'e', 'd', 'e', 'f', 'i', 'n', 'e', ' '];
    assert(marker@ == define_marker());
    let mut i: usize = 0;
    while i < 13
        invariant
            i <= 13,
            13 <= line.len(),
            marker@ == define_marker(),
            forall|j: int| 0 <= j < i ==> line@[j] == marker@[j],
        decreases 13 - i,
    {
        if line[i] != marker[i] {
            assert(line@.take(13)[i as int] != define_marker()[i as int]);
            return None;
        }
        i = i + 1;
    }
    assert(line@.take(13) == define_marker());
    let mut rest: Vec<char> = Vec::new();
    let mut k: usize = 13;
    while k < line.len()
        invariant
            13 <= k <= line.len(),
            rest@ == line@.subrange(13, k as int),
        decreases line.len() - k,
    {
        rest.push(line[k]);
        k = k + 1;
    }
    Some(string_from_chars(&rest))
}

/// Renders a cmake configuration header file by replacing all the config
/// template lines.
///
/// Each line is copied, except that a `#cmakedefine NAME` line becomes
/// `#define NAME` or `/* #undef NAME */` by what `get_define_value` answers
/// for `NAME`; every line of the output ends with a line feed. The first
/// define line that cannot be rendered is the error.
pub fn render_template_content<F: Fn(&str) -> Option<bool>>(
    template: &str,
    get_define_value: &F,
) -> (r: Result<String, TemplateError>)
    requires
        forall|s: &str| call_requires(*get_define_value, (s,)),
    ensures
        r matches Ok(out) ==> exists|rendered: Seq<Seq<char>>|
            {
                &&& rendered.len() == text_lines(template@).len()
                &&& forall|i: int|
                    0 <= i < rendered.len() ==> #[trigger] line_rendered(
                        text_lines(template@)[i],
                        rendered[i],
                        *get_define_value,
                    )
                &&& out@ == join_lines(rendered)
            },
        r matches Err(e) ==> exists|i: int|
            0 <= i < text_lines(template@).len() && is_define_line(#[trigger] text_lines(template@)[i])
                && define_rendered(
                define_args_of(text_lines(template@)[i]),
                *get_define_value,
                Err(e),
            ) && forall|j: int| 0 <= j < i ==> line_renders(#[trigger] text_lines(template@)[j], *get_define_value),
        (forall|i: int|
            0 <= i < text_lines(template@).len() && is_define_line(#[trigger] text_lines(template@)[i])
                ==> define_succeeds(define_args_of(text_lines(template@)[i]), *get_define_value))
            ==> r is Ok,
{
    let chars = chars_of(template);
    let lines = split_lines(&chars);
    let ghost ls = text_lines(template@);
    let mut output = String::new();
    let ghost mut rendered: Seq<Seq<char>> = seq![];
    for i in 0..lines.len()
        invariant
            lines@.map_values(|x: Vec<char>| x@) == ls,
            ls == text_lines(template@),
            forall|s: &str| call_requires(*get_define_value, (s,)),
            rendered.len() == i,
            forall|j: int| 0 <= j < i ==> #[trigger] line_rendered(ls[j], rendered[j], *get_define_value),
            output@ == join_lines(rendered),
    {
        let line = &lines[i];
        assert(line@ == ls[i as int]);
        let piece: String;
        match define_line_args(line) {
            Some(args) => {
                let res = render_template_define(args.as_str(), get_define_value);
                match res {
                    Ok(text) => {
                        piece = text;
                    },
                    Err(e) => {
                        assert(define_rendered(define_args_of(ls[i as int]), *get_define_value, Err(e)));
                        assert forall|j: int| 0 <= j < i implies line_renders(
                            #[trigger] ls[j],
                            *get_define_value,
                        ) by {
                            assert(line_rendered(ls[j], rendered[j], *get_define_value));
                        }
                        return Err(e);
                    },
                }
            },
            None => {
                piece = string_from_chars(line);
            },
        }
        assert(line_rendered(ls[i as int], piece@, *get_define_value));
        let ghost old_out = output@;
        output.append(piece.as_str());
        string_push(&mut output, '\n');
        proof {
            let old_r = rendered;
            rendered = rendered.push(piece@);
            assert(rendered.drop_last() == old_r);
            assert(output@ == join_lines(rendered));
        }
    }
    Ok(output)
}

} // verus!
