//! Staging file names inside the work directory.

use vstd::prelude::*;
use vstd::string::*;
use crate::text::{chars_of, lower, lowered, to_lower};

verus! {

/// Extension shared by every staging file.
pub const EXT: &'static str = "atranscoder";

/// `dir` and `name` joined by one `/`, which is left out where `dir` is
/// empty or already ends with one.
pub open spec fn joined(dir: Seq<char>, name: Seq<char>) -> Seq<char> {
    if dir.len() == 0 || dir.last() == '/' {
        dir + name
    } else {
        dir + seq!['/'] + name
    }
}

/// File name of a job's staged input.
pub open spec fn in_file_name(task_id: Seq<char>) -> Seq<char> {
    task_id + ".in.atranscoder"@
}

/// File name of a job's staged output.
pub open spec fn out_file_name(task_id: Seq<char>) -> Seq<char> {
    task_id + ".out.atranscoder"@
}

fn join(work_dir: &str, name: &str) -> (path: String)
    ensures
        path@ == joined(work_dir@, name@),
{
    let n: usize = work_dir.unicode_len();
    let mut path = String::from_str(work_dir);
    if n != 0 && work_dir.get_char(n - 1) != '/' {
        proof {
            reveal_strlit("/");
        }
        path.append("/");
    }
    path.append(name);
    path
}

/// Path of the staged input of job `task_id` under `work_dir`.
pub fn in_file_path(work_dir: &str, task_id: String) -> (path: String)
    ensures
        path@ == joined(work_dir@, in_file_name(task_id@)),
{
    let mut name = task_id;
    name.append(".in.atranscoder");
    join(work_dir, name.as_str())
}

/// Path of the staged output of job `task_id` under `work_dir`.
pub fn out_file_path(work_dir: &str, task_id: String) -> (path: String)
    ensures
        path@ == joined(work_dir@, out_file_name(task_id@)),
{
    let mut name = task_id;
    name.append(".out.atranscoder");
    join(work_dir, name.as_str())
}

/// The extension of a file name: what follows its last `.`, unless the name
/// has none or only starts with one.
pub open spec fn extension_of(name: Seq<char>) -> Option<Seq<char>> {
    match name.index_of_last('.') {
        Some(at) => if 0 < at < name.len() {
            Some(name.skip(at + 1))
        } else {
            None
        },
        None => None,
    }
}

/// Whether a file name marks a staging file: its extension, in lower case,
/// is the staging extension.
pub open spec fn is_staging_name(name: Seq<char>) -> bool {
    extension_of(name) matches Some(ext) && lowered(ext) == EXT@
}

/// Whether a file name marks a staging file, whatever the case of its
/// extension.
pub fn has_staging_extension(name: &str) -> (yes: bool)
    ensures
        yes == is_staging_name(name@),
{
    let chars = chars_of(name);
    let wanted = chars_of(EXT);
    let n: usize = chars.len();
    let mut dot: usize = n;
    while dot > 0 && chars[dot - 1] != '.'
        invariant
            dot <= n == chars.len(),
            forall|j: int| dot <= j < n ==> chars@[j] != '.',
        decreases dot,
    {
        dot -= 1;
    }
    proof {
        name@.index_of_last_ensures('.');
    }
    if dot <= 1 {
        return false;
    }
    let ghost ext = name@.skip(dot as int);
    if n - dot != wanted.len() {
        return false;
    }
    let mut i: usize = 0;
    while i < wanted.len()
        invariant
            chars@ == name@,
            wanted@ == EXT@,
            dot <= n == chars.len(),
            n - dot == wanted.len(),
            ext == name@.skip(dot as int),
            i <= wanted.len(),
            forall|j: int| 0 <= j < i ==> lower(ext[j]) == wanted@[j],
        decreases wanted.len() - i,
    {
        if to_lower(chars[dot + i]) != wanted[i] {
            return false;
        }
        i += 1;
    }
    assert(lowered(ext) =~= EXT@);
    true
}

proof fn lemma_suffix_is_staging(stem: Seq<char>, middle: Seq<char>)
    requires
        middle.len() > 1,
        middle.last() == '.',
    ensures
        is_staging_name(stem + middle + EXT@),
{
    reveal_strlit("atranscoder");
    let name = stem + middle + EXT@;
    let dot = stem.len() + middle.len() - 1;
    assert(name[dot] == '.');
    name.index_of_last_ensures('.');
    let at = name.index_of_last('.').unwrap();
    assert(name.skip(at + 1) =~= EXT@);
    assert(lowered(EXT@) =~= EXT@);
}

/// The files of a job carry the staging extension: whatever the job's
/// identifier, the names of its staged input and output are staging names.
pub proof fn staged_files_have_staging_names(task_id: Seq<char>)
    ensures
        is_staging_name(in_file_name(task_id)),
        is_staging_name(out_file_name(task_id)),
{
    reveal_strlit(".in.atranscoder");
    reveal_strlit(".out.atranscoder");
    reveal_strlit("atranscoder");
    reveal_strlit(".in.");
    reveal_strlit(".out.");
    lemma_suffix_is_staging(task_id, ".in."@);
    lemma_suffix_is_staging(task_id, ".out."@);
    assert(in_file_name(task_id) =~= task_id + ".in."@ + EXT@);
    assert(out_file_name(task_id) =~= task_id + ".out."@ + EXT@);
}

/// Staged names keep jobs and directions apart: no name of an input is the
/// name of an output, and two jobs share a name only if they share their
/// identifier.
pub proof fn staged_names_are_distinct(a: Seq<char>, b: Seq<char>)
    ensures
        in_file_name(a) != out_file_name(b),
        in_file_name(a) == in_file_name(b) ==> a == b,
        out_file_name(a) == out_file_name(b) ==> a == b,
{
    reveal_strlit(".in.atranscoder");
    reveal_strlit(".out.atranscoder");
    let input = in_file_name(a);
    let output = out_file_name(b);
    if input == output {
        assert(input[input.len() - 13] == 'n');
    }
    if in_file_name(a) == in_file_name(b) {
        assert(in_file_name(a).len() == a.len() + 15);
        assert forall|i: int| 0 <= i < a.len() implies a[i] == b[i] by {
            assert(in_file_name(a)[i] == a[i]);
        }
    }
    if out_file_name(a) == out_file_name(b) {
        assert(out_file_name(a).len() == a.len() + 16);
        assert forall|i: int| 0 <= i < a.len() implies a[i] == b[i] by {
            assert(out_file_name(a)[i] == a[i]);
        }
    }
}

/// Two files of one directory have the same path only if they have the same
/// name.
pub proof fn joined_is_one_to_one(dir: Seq<char>, x: Seq<char>, y: Seq<char>)
    requires
        joined(dir, x) == joined(dir, y),
    ensures
        x == y,
{
    let offset = joined(dir, x).len() - x.len();
    assert forall|i: int| 0 <= i < x.len() implies x[i] == y[i] by {
        assert(joined(dir, x)[offset + i] == x[i]);
    }
}

} // verus!
