//! Names under which template files are registered: a file's name without
//! its extension, as `std::path::Path::file_stem` gives it.

use vstd::prelude::*;
use crate::text::{chars_of, find_last, last_index};

verus! {

/// The stem of a file name: the name itself when it is `..`, holds no `.`,
/// or holds a single `.` at its start; otherwise the part before the last
/// `.`.
pub open spec fn file_stem(name: Seq<char>) -> Seq<char> {
    if name == seq!['.', '.'] {
        name
    } else {
        match last_index(name, '.') {
            Some(k) => if k == 0 { name } else { name.take(k) },
            None => name,
        }
    }
}

/// The template name for a file named `file_name`: its stem.
pub fn template_name(file_name: &str) -> (name: String)
    ensures
        name@ == file_stem(file_name@),
{
    let chars = chars_of(file_name);
    let n = chars.len();
    let found = find_last(&chars, '.');
    let is_dot_dot = n == 2 && chars[0] == '.' && chars[1] == '.';
    if is_dot_dot {
        assert(chars@ =~= seq!['.', '.']);
        return file_name.to_owned();
    }
    assert(chars@ != seq!['.', '.']) by {
        if chars@ == seq!['.', '.'] {
            assert(chars@[0] == '.' && chars@[1] == '.');
        }
    }
    match found {
        Some(k) => {
            if k == 0 {
                file_name.to_owned()
            } else {
                let stem = file_name.substring_char(0, k);
                stem.to_owned()
            }
        },
        None => file_name.to_owned(),
    }
}

} // verus!
