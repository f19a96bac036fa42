use vstd::prelude::*;

verus! {

/// Stem shared by the source file and the compiled module.
pub const CRATE_NAME: &'static str = "playground";

/// Prefix of every workspace directory's name.
pub const WORKSPACE_PREFIX: &'static str = "playground-";

/// Random bytes in every workspace directory's name.
pub const WORKSPACE_RAND_BYTES: usize = 10;

/// Name of the output subdirectory inside a workspace.
pub const OUTPUT_DIR_NAME: &'static str = "out";

/// The external ahead-of-time compiler.
pub const COMPILER: &'static str = "rustc";

/// The compilation target handed to the compiler.
pub const WASM_TARGET: &'static str = "wasm32-wasi";

pub open spec fn input_file_of(root: Seq<char>) -> Seq<char> {
    root + "/"@ + CRATE_NAME@ + ".rs"@
}

pub open spec fn output_dir_of(root: Seq<char>) -> Seq<char> {
    root + "/"@ + OUTPUT_DIR_NAME@
}

pub open spec fn executable_path_of(output_dir: Seq<char>) -> Seq<char> {
    output_dir + "/"@ + CRATE_NAME@ + ".wasm"@
}

/// The argument list of one compiler invocation: output directory, target,
/// and the single input file, with nothing else.
pub open spec fn compiler_args_of(output_dir: Seq<char>, input_file: Seq<char>) -> Seq<Seq<char>> {
    seq!["--out-dir"@, output_dir, "--target"@, WASM_TARGET@, input_file]
}

/// Where the files of one workspace live, given the directory that was
/// created for it.
pub struct WorkspaceLayout {
    pub root: String,
    pub input_file: String,
    pub output_dir: String,
}

impl WorkspaceLayout {
    pub open spec fn wf(&self) -> bool {
        &&& self.input_file@ == input_file_of(self.root@)
        &&& self.output_dir@ == output_dir_of(self.root@)
    }

    /// Lays out a workspace in the directory `root`.
    pub fn new(root: &str) -> (w: WorkspaceLayout)
        ensures
            w.root@ == root@,
            w.wf(),
    {
        let mut input_file = String::from_str(root);
        input_file.append("/");
        input_file.append(CRATE_NAME);
        input_file.append(".rs");
        let mut output_dir = String::from_str(root);
        output_dir.append("/");
        output_dir.append(OUTPUT_DIR_NAME);
        WorkspaceLayout { root: String::from_str(root), input_file, output_dir }
    }

    /// Where a successful compile leaves the module.
    pub fn executable_path(&self) -> (r: String)
        ensures
            r@ == executable_path_of(self.output_dir@),
    {
        let mut path = self.output_dir.clone();
        path.append("/");
        path.append(CRATE_NAME);
        path.append(".wasm");
        path
    }

    /// The arguments of the compiler invocation for this workspace.
    pub fn compiler_args(&self) -> (r: Vec<String>)
        ensures
            r@.map_values(|s: String| s@) == compiler_args_of(self.output_dir@, self.input_file@),
    {
        let mut args: Vec<String> = Vec::new();
        args.push(String::from_str("--out-dir"));
        args.push(self.output_dir.clone());
        args.push(String::from_str("--target"));
        args.push(String::from_str(WASM_TARGET));
        args.push(self.input_file.clone());
        assert(args@.map_values(|s: String| s@) =~= compiler_args_of(self.output_dir@, self.input_file@));
        args
    }
}

proof fn lemma_suffix_cancel(a: Seq<char>, b: Seq<char>, s: Seq<char>)
    requires
        a + s == b + s,
    ensures
        a == b,
{
    assert((a + s).len() == a.len() + s.len());
    assert((b + s).len() == b.len() + s.len());
    assert(a =~= (a + s).subrange(0, a.len() as int));
    assert(b =~= (b + s).subrange(0, b.len() as int));
}

/// Workspaces in distinct directories share no file: their source files,
/// output directories and compiled modules are pairwise distinct.
pub proof fn lemma_distinct_workspaces_disjoint(root1: Seq<char>, root2: Seq<char>)
    requires
        root1 != root2,
    ensures
        input_file_of(root1) != input_file_of(root2),
        output_dir_of(root1) != output_dir_of(root2),
        executable_path_of(output_dir_of(root1)) != executable_path_of(output_dir_of(root2)),
{
    let rs = "/"@ + CRATE_NAME@ + ".rs"@;
    let out = "/"@ + OUTPUT_DIR_NAME@;
    let wasm = "/"@ + CRATE_NAME@ + ".wasm"@;
    assert(input_file_of(root1) =~= root1 + rs);
    assert(input_file_of(root2) =~= root2 + rs);
    if input_file_of(root1) == input_file_of(root2) {
        lemma_suffix_cancel(root1, root2, rs);
    }
    assert(output_dir_of(root1) =~= root1 + out);
    assert(output_dir_of(root2) =~= root2 + out);
    if output_dir_of(root1) == output_dir_of(root2) {
        lemma_suffix_cancel(root1, root2, out);
    }
    assert(executable_path_of(output_dir_of(root1)) =~= root1 + (out + wasm));
    assert(executable_path_of(output_dir_of(root2)) =~= root2 + (out + wasm));
    if executable_path_of(output_dir_of(root1)) == executable_path_of(output_dir_of(root2)) {
        lemma_suffix_cancel(root1, root2, out + wasm);
    }
}

/// `path` lies inside the directory `dir`.
pub open spec fn within(dir: Seq<char>, path: Seq<char>) -> bool {
    &&& path.len() > dir.len()
    &&& path.subrange(0, dir.len() + 1 as int) == dir + "/"@
}

/// The three paths of the workspace in `root`: source file, output directory
/// and compiled module.
pub open spec fn workspace_paths(root: Seq<char>) -> Seq<Seq<char>> {
    seq![input_file_of(root), output_dir_of(root), executable_path_of(output_dir_of(root))]
}

proof fn lemma_prefix_of_concat(a: Seq<char>, b: Seq<char>, c: Seq<char>)
    requires
        a.len() >= 1,
    ensures
        ((a + b) + c).subrange(0, a.len() as int) == a,
{
    assert(((a + b) + c).subrange(0, a.len() as int) =~= a);
}

proof fn lemma_paths_within(root: Seq<char>)
    ensures
        forall|i: int| 0 <= i < 3 ==> within(root, #[trigger] workspace_paths(root)[i]),
{
    let dir = root + "/"@;
    let n = root.len() + 1 as int;
    assert("/"@.len() == 1) by {
        reveal_strlit("/");
    }
    assert(input_file_of(root) =~= dir + (CRATE_NAME@ + ".rs"@));
    assert(input_file_of(root).subrange(0, n) =~= dir);
    assert(output_dir_of(root) =~= dir + OUTPUT_DIR_NAME@);
    assert(output_dir_of(root).subrange(0, n) =~= dir);
    let exe = executable_path_of(output_dir_of(root));
    assert(exe =~= dir + (OUTPUT_DIR_NAME@ + "/"@ + CRATE_NAME@ + ".wasm"@));
    assert(exe.subrange(0, n) =~= dir);
    assert(CRATE_NAME@.len() > 0) by {
        reveal_strlit("playground");
    }
    assert(OUTPUT_DIR_NAME@.len() > 0) by {
        reveal_strlit("out");
    }
}

proof fn lemma_common_directory(a: Seq<char>, b: Seq<char>, p: Seq<char>)
    requires
        a != b,
        within(a, p),
        within(b, p),
    ensures
        within(a, b) || within(b, a),
{
    assert("/"@.len() == 1) by {
        reveal_strlit("/");
    }
    assert(a =~= (a + "/"@).subrange(0, a.len() as int));
    assert(b =~= (b + "/"@).subrange(0, b.len() as int));
    assert(a =~= p.subrange(0, a.len() as int));
    assert(b =~= p.subrange(0, b.len() as int));
    if a.len() < b.len() {
        assert(b.subrange(0, a.len() + 1 as int) =~= p.subrange(0, a.len() + 1 as int));
    } else if b.len() < a.len() {
        assert(a.subrange(0, b.len() + 1 as int) =~= p.subrange(0, b.len() + 1 as int));
    }
}

/// Workspaces in two distinct directories, neither inside the other, share
/// no path at all: no source file, output directory or compiled module of
/// the one is any path of the other.
pub proof fn lemma_separate_workspaces_share_no_path(root1: Seq<char>, root2: Seq<char>)
    requires
        root1 != root2,
        !within(root1, root2),
        !within(root2, root1),
    ensures
        forall|i: int, j: int|
            0 <= i < 3 && 0 <= j < 3 ==> #[trigger] workspace_paths(root1)[i]
                != #[trigger] workspace_paths(root2)[j],
{
    lemma_paths_within(root1);
    lemma_paths_within(root2);
    assert forall|i: int, j: int|
        0 <= i < 3 && 0 <= j < 3 implies #[trigger] workspace_paths(root1)[i]
            != #[trigger] workspace_paths(root2)[j] by {
        if workspace_paths(root1)[i] == workspace_paths(root2)[j] {
            lemma_common_directory(root1, root2, workspace_paths(root1)[i]);
        }
    }
}

} // verus!
