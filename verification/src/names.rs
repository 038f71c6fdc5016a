//! File names: the extension and stem of a directory entry's name, the
//! extension filter, and the name of the file a conversion writes.
//!
//! A name here is the last component of a path, as a directory listing gives
//! it. Its extension follows the convention of `std::path::Path::extension`:
//! the text behind the last `.`, unless the name holds no `.`, holds its only
//! `.` at the very front, or is `..`.

use vstd::prelude::*;
use vstd::string::*;

verus! {

/// The position of the last `.` in a name, or `-1` where it holds none.
pub open spec fn last_dot(name: Seq<char>) -> int
    decreases name.len(),
{
    if name.len() == 0 {
        -1
    } else if name.last() == '.' {
        name.len() - 1
    } else {
        last_dot(name.drop_last())
    }
}

/// The extension of a name: what stands behind its last `.`, without the dot.
/// A name without a `.`, one whose only `.` is its first character, and the
/// name `..` have none. A name that ends in `.` has the empty extension.
pub open spec fn extension_of(name: Seq<char>) -> Option<Seq<char>> {
    let dot = last_dot(name);
    if dot <= 0 || name == seq!['.', '.'] {
        None
    } else {
        Some(name.subrange(dot + 1, name.len() as int))
    }
}

/// The stem of a name that has an extension: what stands before its last `.`.
/// A name without an extension has no stem.
pub open spec fn stem_of(name: Seq<char>) -> Option<Seq<char>> {
    if extension_of(name) is Some {
        Some(name.subrange(0, last_dot(name)))
    } else {
        None
    }
}

/// Whether the filter lets a name through: the filter `*` accepts every name,
/// any other filter accepts the names whose extension equals it, case and all.
pub open spec fn accepts(filter: Seq<char>, name: Seq<char>) -> bool {
    filter == "*"@ || extension_of(name) == Some(filter)
}

/// The name of the file that a conversion writes: the source's stem, or
/// `converted` where it has none, then `.` and the output type.
pub open spec fn dest_name_of(name: Seq<char>, output_file_type: Seq<char>) -> Seq<char> {
    let stem = match stem_of(name) {
        Some(stem) => stem,
        None => "converted"@,
    };
    stem + seq!['.'] + output_file_type
}

/// What `last_dot` finds: a position inside the name that holds a `.`, with
/// no `.` behind it; or `-1`, and then the name holds no `.` at all.
pub proof fn lemma_last_dot(name: Seq<char>)
    ensures
        -1 <= last_dot(name) < name.len(),
        last_dot(name) >= 0 ==> name[last_dot(name)] == '.',
        forall|j: int| last_dot(name) < j < name.len() ==> name[j] != '.',
    decreases name.len(),
{
    if name.len() > 0 && name.last() != '.' {
        let front = name.drop_last();
        lemma_last_dot(front);
        assert forall|j: int| last_dot(name) < j < name.len() implies name[j] != '.' by {
            if j < front.len() {
                assert(front[j] == name[j]);
            }
        }
    }
}

/// A position that holds a `.` with no `.` behind it is the one that
/// `last_dot` finds; and a name without any `.` has `-1`.
pub proof fn lemma_last_dot_unique(name: Seq<char>, dot: int)
    requires
        -1 <= dot < name.len(),
        dot >= 0 ==> name[dot] == '.',
        forall|j: int| dot < j < name.len() ==> name[j] != '.',
    ensures
        last_dot(name) == dot,
{
    lemma_last_dot(name);
}

/// Whether two texts are the same, character by character.
pub fn same_text(a: &str, b: &str) -> (same: bool)
    ensures
        same == (a@ == b@),
{
    let left = a.to_owned();
    let right = b.to_owned();
    left == right
}

/// Finds the last `.` of a name.
pub fn find_last_dot(name: &str) -> (dot: Option<usize>)
    ensures
        match dot {
            Some(i) => i as int == last_dot(name@),
            None => last_dot(name@) == -1,
        },
{
    let len: usize = name.unicode_len();
    let mut i: usize = len;
    while i > 0
        invariant
            i <= len,
            len as nat == name@.len(),
            forall|j: int| i <= j < len ==> name@[j] != '.',
        decreases i,
    {
        i = i - 1;
        if name.get_char(i) == '.' {
            proof {
                lemma_last_dot_unique(name@, i as int);
            }
            return Some(i);
        }
    }
    proof {
        lemma_last_dot_unique(name@, -1);
    }
    None
}

/// Finds the `.` that parts the stem of a name from its extension, if the
/// name has an extension.
fn find_extension_dot(name: &str) -> (dot: Option<usize>)
    ensures
        match dot {
            Some(i) => extension_of(name@) is Some && i as int == last_dot(name@) && 0 < i
                < name@.len(),
            None => extension_of(name@) is None,
        },
{
    match find_last_dot(name) {
        None => None,
        Some(dot) => {
            proof {
                reveal_strlit("..");
                assert(".."@ =~= seq!['.', '.']);
                lemma_last_dot(name@);
            }
            if dot == 0 || same_text(name, "..") {
                None
            } else {
                Some(dot)
            }
        },
    }
}

/// The extension of a name, if it has one.
pub fn extension(name: &str) -> (ext: Option<String>)
    ensures
        match ext {
            Some(e) => extension_of(name@) == Some(e@),
            None => extension_of(name@) is None,
        },
{
    match find_extension_dot(name) {
        None => None,
        Some(dot) => {
            let len: usize = name.unicode_len();
            Some(name.substring_char(dot + 1, len).to_owned())
        },
    }
}

/// The stem of a name, if it has an extension.
pub fn stem(name: &str) -> (stem: Option<String>)
    ensures
        match stem {
            Some(s) => stem_of(name@) == Some(s@),
            None => stem_of(name@) is None,
        },
{
    match find_extension_dot(name) {
        None => None,
        Some(dot) => Some(name.substring_char(0, dot).to_owned()),
    }
}

/// Whether the filter lets a name through.
pub fn matches_filter(input_file_type: &str, name: &str) -> (pass: bool)
    ensures
        pass == accepts(input_file_type@, name@),
{
    if same_text(input_file_type, "*") {
        true
    } else {
        match extension(name) {
            Some(ext) => same_text(ext.as_str(), input_file_type),
            None => false,
        }
    }
}

/// The name of the file that a conversion of `name` to `output_file_type`
/// writes.
pub fn dest_file_name(name: &str, output_file_type: &str) -> (dest: String)
    ensures
        dest@ == dest_name_of(name@, output_file_type@),
{
    let mut dest: String = match stem(name) {
        Some(stem) => stem,
        None => "converted".to_owned(),
    };
    proof {
        reveal_strlit(".");
    }
    dest.append(".");
    dest.append(output_file_type);
    assert(dest@ =~= dest_name_of(name@, output_file_type@));
    dest
}

} // verus!
