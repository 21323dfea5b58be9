//! The read-only description of one buildable app and the paths derived from it.
use vstd::prelude::*;

verus! {

/// Index of the last occurrence of `c` in `s`, or -1 when there is none.
pub open spec fn last_index_of(s: Seq<char>, c: char) -> int
    decreases s.len(),
{
    if s.len() == 0 {
        -1
    } else if s.last() == c {
        s.len() - 1
    } else {
        last_index_of(s.drop_last(), c)
    }
}

/// `base/part`, with no separator doubled and none added to an empty base.
pub open spec fn path_join(base: Seq<char>, part: Seq<char>) -> Seq<char> {
    if base.len() == 0 || base.last() == '/' {
        base + part
    } else {
        base + seq!['/'] + part
    }
}

/// The last component of a path.
pub open spec fn file_name_of(p: Seq<char>) -> Seq<char> {
    p.subrange(last_index_of(p, '/') + 1, p.len() as int)
}

/// The last component of a path without its extension; a leading dot starts no
/// extension.
pub open spec fn file_stem_of(p: Seq<char>) -> Seq<char> {
    let f = file_name_of(p);
    let d = last_index_of(f, '.');
    if d <= 0 {
        f
    } else {
        f.subrange(0, d)
    }
}

pub proof fn lemma_last_index_bounds(s: Seq<char>, c: char)
    ensures
        -1 <= last_index_of(s, c) < s.len(),
        last_index_of(s, c) >= 0 ==> s[last_index_of(s, c)] == c,
    decreases s.len(),
{
    if s.len() > 0 && s.last() != c {
        lemma_last_index_bounds(s.drop_last(), c);
    }
}

fn find_last(s: &str, c: char) -> (r: Option<usize>)
    ensures
        match r {
            Some(i) => i == last_index_of(s@, c),
            None => last_index_of(s@, c) == -1,
        },
{
    let n = s.unicode_len();
    let mut i: usize = n;
    assert(s@.subrange(0, n as int) =~= s@);
    while i > 0
        invariant
            i <= n,
            n == s@.len(),
            last_index_of(s@, c) == last_index_of(s@.subrange(0, i as int), c),
        decreases i,
    {
        let ch = s.get_char(i - 1);
        assert(s@.subrange(0, i as int).drop_last() =~= s@.subrange(0, i - 1));
        if ch == c {
            return Some(i - 1);
        }
        i = i - 1;
    }
    None
}

/// Joins a relative part onto a base path.
pub fn join_path(base: &str, part: &str) -> (r: String)
    ensures
        r@ == path_join(base@, part@),
{
    let n = base.unicode_len();
    let mut r = String::from_str(base);
    if n != 0 && base.get_char(n - 1) != '/' {
        proof {
            reveal_strlit("/");
        }
        r.append("/");
    }
    r.append(part);
    r
}

/// The file stem of a path: its last component without the extension.
pub fn file_stem(p: &str) -> (r: String)
    ensures
        r@ == file_stem_of(p@),
{
    proof {
        lemma_last_index_bounds(p@, '/');
    }
    let n = p.unicode_len();
    let start: usize = match find_last(p, '/') {
        Some(i) => i + 1,
        None => 0,
    };
    let name = p.substring_char(start, n);
    assert(name@ == file_name_of(p@));
    proof {
        lemma_last_index_bounds(name@, '.');
    }
    match find_last(name, '.') {
        Some(d) => {
            if d == 0 {
                String::from_str(name)
            } else {
                String::from_str(name.substring_char(0, d))
            }
        },
        None => String::from_str(name),
    }
}

/// Optimisation level handed to the native build system.
#[derive(Clone, Copy, Debug, PartialEq, Eq, Structural)]
pub enum BuildProfile {
    Debug,
    Release,
}

/// One independently buildable unit of a project.
#[derive(Debug)]
pub struct App {
    /// Unique within a manifest.
    pub name: String,
    /// Root of the project.
    pub root_path: String,
    /// Where generated build trees and installed binaries go.
    pub output_root: String,
    /// Path of the main compilation unit; its stem names the build target.
    pub main_reactor: String,
}

impl App {
    pub fn new(name: String, root_path: String, output_root: String, main_reactor: String) -> (r: App)
        ensures
            r.name == name,
            r.root_path == root_path,
            r.output_root == output_root,
            r.main_reactor == main_reactor,
    {
        App { name, root_path, output_root, main_reactor }
    }

    pub open spec fn src_gen_dir_spec(&self) -> Seq<char> {
        path_join(self.root_path@, "src-gen"@)
    }

    pub open spec fn build_dir_spec(&self) -> Seq<char> {
        path_join(self.output_root@, "build"@)
    }

    pub open spec fn bin_dir_spec(&self) -> Seq<char> {
        path_join(self.output_root@, "bin"@)
    }

    pub open spec fn executable_path_spec(&self) -> Seq<char> {
        path_join(self.bin_dir_spec(), self.name@)
    }

    pub open spec fn target_name_spec(&self) -> Seq<char> {
        file_stem_of(self.main_reactor@)
    }

    /// Where the code generator writes its sources: `root_path/src-gen`.
    pub fn src_gen_dir(&self) -> (r: String)
        ensures
            r@ == self.src_gen_dir_spec(),
    {
        join_path(self.root_path.as_str(), "src-gen")
    }

    /// The native build tree: `output_root/build`.
    pub fn build_dir(&self) -> (r: String)
        ensures
            r@ == self.build_dir_spec(),
    {
        join_path(self.output_root.as_str(), "build")
    }

    /// Where binaries are installed: `output_root/bin`.
    pub fn bin_dir(&self) -> (r: String)
        ensures
            r@ == self.bin_dir_spec(),
    {
        join_path(self.output_root.as_str(), "bin")
    }

    /// The final artifact: `output_root/bin/name`.
    pub fn executable_path(&self) -> (r: String)
        ensures
            r@ == self.executable_path_spec(),
    {
        let bin = self.bin_dir();
        join_path(bin.as_str(), self.name.as_str())
    }

    /// The build-system target, named after the stem of the main unit.
    pub fn target_name(&self) -> (r: String)
        ensures
            r@ == self.target_name_spec(),
    {
        file_stem(self.main_reactor.as_str())
    }
}

} // verus!
