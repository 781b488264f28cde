//! Which files of a library's source and include trees the build takes:
//! C sources to compile, headers to copy.
use vstd::prelude::*;
use crate::text::chars_of;

verus! {

/// The index of the last `.` in `name`, if any.
pub open spec fn last_dot(name: Seq<char>) -> Option<int>
    decreases name.len(),
{
    if name.len() == 0 {
        None
    } else if name.last() == '.' {
        Some(name.len() - 1)
    } else {
        last_dot(name.drop_last())
    }
}

/// The extension of a file name, as `Path::extension` defines it: what
/// follows the last `.`, unless there is none, the name begins with its
/// only `.`, or the name is `..`.
pub open spec fn extension_of(name: Seq<char>) -> Option<Seq<char>> {
    if name == seq!['.', '.'] {
        None
    } else {
        match last_dot(name) {
            Some(i) => if i == 0 {
                None
            } else {
                Some(name.subrange(i + 1, name.len() as int))
            },
            None => None,
        }
    }
}

/// `char::to_ascii_lowercase`.
pub open spec fn ascii_lower(c: char) -> char {
    if 'A' <= c && c <= 'Z' {
        ((c as u32) + 32) as char
    } else {
        c
    }
}

/// `str::eq_ignore_ascii_case`.
pub open spec fn eq_ignore_ascii_case(a: Seq<char>, b: Seq<char>) -> bool {
    a.len() == b.len() && forall|i: int| 0 <= i < a.len() ==> ascii_lower(#[trigger] a[i]) == ascii_lower(b[i])
}

/// The file name has the extension `ext`, in any ASCII case.
pub open spec fn has_extension(name: Seq<char>, ext: Seq<char>) -> bool {
    extension_of(name) matches Some(e) && eq_ignore_ascii_case(e, ext)
}

proof fn lemma_last_dot(name: Seq<char>)
    ensures
        last_dot(name) matches Some(i) ==> 0 <= i < name.len() && name[i] == '.' && forall|j: int|
            i < j < name.len() ==> name[j] != '.',
        last_dot(name) is None ==> forall|j: int| 0 <= j < name.len() ==> name[j] != '.',
    decreases name.len(),
{
    if name.len() > 0 && name.last() != '.' {
        let d = name.drop_last();
        lemma_last_dot(d);
        assert forall|j: int| 0 <= j < d.len() implies d[j] == name[j] by {}
    }
}

/// The extension of the file name held in `cs`.
fn extension(cs: &Vec<char>) -> (r: Option<Vec<char>>)
    ensures
        r is Some <==> extension_of(cs@) is Some,
        r matches Some(e) ==> Some(e@) == extension_of(cs@),
{
    proof {
        lemma_last_dot(cs@);
    }
    if cs.len() == 2 && cs[0] == '.' && cs[1] == '.' {
        assert(cs@ == seq!['.', '.']);
        return None;
    }
    assert(cs@ != seq!['.', '.']);
    let mut i: usize = cs.len();
    while i > 0
        invariant
            i <= cs@.len(),
            cs@ != seq!['.', '.'],
            forall|j: int| i <= j < cs@.len() ==> cs@[j] != '.',
        decreases i,
    {
        if cs[i - 1] == '.' {
            let dot = i - 1;
            assert(last_dot(cs@) == Some(dot as int)) by {
                lemma_last_dot(cs@);
                match last_dot(cs@) {
                    Some(k) => {
                        assert(k == dot);
                    },
                    None => {},
                }
            }
            if dot == 0 {
                return None;
            }
            let mut e: Vec<char> = Vec::new();
            let mut k: usize = i;
            while k < cs.len()
                invariant
                    i <= k <= cs@.len(),
                    e@ == cs@.subrange(i as int, k as int),
                decreases cs@.len() - k,
            {
                e.push(cs[k]);
                k = k + 1;
            }
            return Some(e);
        }
        i = i - 1;
    }
    assert(last_dot(cs@) is None);
    None
}

fn ignore_case_equal(a: &Vec<char>, b: &Vec<char>) -> (r: bool)
    ensures
        r == eq_ignore_ascii_case(a@, b@),
{
    if a.len() != b.len() {
        return false;
    }
    let mut i: usize = 0;
    while i < a.len()
        invariant
            a@.len() == b@.len(),
            i <= a@.len(),
            forall|j: int| 0 <= j < i ==> ascii_lower(#[trigger] a@[j]) == ascii_lower(b@[j]),
        decreases a@.len() - i,
    {
        let x = a[i];
        let y = b[i];
        let lx = if 'A' <= x && x <= 'Z' {
            ((x as u8) + 32) as char
        } else {
            x
        };
        let ly = if 'A' <= y && y <= 'Z' {
            ((y as u8) + 32) as char
        } else {
            y
        };
        if lx != ly {
            return false;
        }
        i = i + 1;
    }
    true
}

/// A C source file, compiled when its directory is listed as a source:
/// its extension is `c`, in any case.
pub fn is_c_source(file_name: &str) -> (r: bool)
    ensures
        r == has_extension(file_name@, seq!['c']),
{
    let cs = chars_of(file_name);
    match extension(&cs) {
        Some(e) => ignore_case_equal(&e, &vec!['c']),
        None => false,
    }
}

/// A header copied with the include tree: its extension is `h` or `inl`,
/// in any case.
pub fn is_header(file_name: &str) -> (r: bool)
    ensures
        r == (has_extension(file_name@, seq!['h']) || has_extension(file_name@, seq!['i', 'n', 'l'])),
{
    let cs = chars_of(file_name);
    match extension(&cs) {
        Some(e) => ignore_case_equal(&e, &vec!['h']) || ignore_case_equal(&e, &vec!['i', 'n', 'l']),
        None => false,
    }
}

} // verus!
