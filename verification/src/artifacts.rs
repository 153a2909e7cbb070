//! The two files of a build and the command that turns one into the other.
//!
//! A build leaves two files in a shared directory: the generated source text
//! and the module compiled from it. Both are named by the build's identifier,
//! so their paths are a function of the directory and the identifier alone.

use vstd::prelude::*;

verus! {

/// The path of the generated source text: `{dir}/{id}.src`.
pub open spec fn source_file_of(dir: Seq<char>, id: Seq<char>) -> Seq<char> {
    dir + "/"@ + id + ".src"@
}

/// The path of the compiled module: `{dir}/{id}.module`.
pub open spec fn module_file_of(dir: Seq<char>, id: Seq<char>) -> Seq<char> {
    dir + "/"@ + id + ".module"@
}

/// The compiler's command line, the program first: produce a dynamically
/// loadable module, allow every warning, write to the module path, read the
/// source path.
pub open spec fn compiler_command_of(source: Seq<char>, module: Seq<char>) -> Seq<
    Seq<char>,
> {
    seq![
        "rustc"@,
        "--crate-type"@,
        "dylib"@,
        "-A"@,
        "warnings"@,
        "-o"@,
        module,
        source,
    ]
}

/// Where the source text of the build `id` goes in `dir`.
pub fn source_file(dir: &str, id: &str) -> (path: String)
    ensures
        path@ == source_file_of(dir@, id@),
{
    let mut path = String::from_str(dir);
    path.append("/");
    path.append(id);
    path.append(".src");
    path
}

/// Where the compiled module of the build `id` goes in `dir`.
pub fn module_file(dir: &str, id: &str) -> (path: String)
    ensures
        path@ == module_file_of(dir@, id@),
{
    let mut path = String::from_str(dir);
    path.append("/");
    path.append(id);
    path.append(".module");
    path
}

/// The command that compiles the source at `source` into a loadable
/// module at `module`. Its first word is the program to run, the others
/// are that program's arguments. Whether the build goes on is decided by the
/// exit status of this command and by nothing it prints.
pub fn compiler_command(source: &str, module: &str) -> (command: Vec<String>)
    ensures
        command.deep_view() == compiler_command_of(source@, module@),
{
    let mut command: Vec<String> = Vec::new();
    command.push(String::from_str("rustc"));
    command.push(String::from_str("--crate-type"));
    command.push(String::from_str("dylib"));
    command.push(String::from_str("-A"));
    command.push(String::from_str("warnings"));
    command.push(String::from_str("-o"));
    command.push(String::from_str(module));
    command.push(String::from_str(source));
    assert(command.deep_view() =~= compiler_command_of(source@, module@));
    command
}

/// In one directory the source path determines the identifier: two builds
/// that write the same source file drew the same identifier.
pub proof fn lemma_source_file_injective(dir: Seq<char>, a: Seq<char>, b: Seq<char>)
    requires
        source_file_of(dir, a) == source_file_of(dir, b),
    ensures
        a == b,
{
    reveal_strlit("/");
    reveal_strlit(".src");
    let p = source_file_of(dir, a);
    let q = source_file_of(dir, b);
    assert(p.len() == dir.len() + 1 + a.len() + 4);
    assert(q.len() == dir.len() + 1 + b.len() + 4);
    assert forall|i: int| 0 <= i < a.len() implies a[i] == b[i] by {
        assert(p[dir.len() + 1 + i] == a[i]);
        assert(q[dir.len() + 1 + i] == b[i]);
    }
    assert(a =~= b);
}

/// In one directory the module path determines the identifier.
pub proof fn lemma_module_file_injective(dir: Seq<char>, a: Seq<char>, b: Seq<char>)
    requires
        module_file_of(dir, a) == module_file_of(dir, b),
    ensures
        a == b,
{
    reveal_strlit("/");
    reveal_strlit(".module");
    let p = module_file_of(dir, a);
    let q = module_file_of(dir, b);
    assert(p.len() == dir.len() + 1 + a.len() + 7);
    assert(q.len() == dir.len() + 1 + b.len() + 7);
    assert forall|i: int| 0 <= i < a.len() implies a[i] == b[i] by {
        assert(p[dir.len() + 1 + i] == a[i]);
        assert(q[dir.len() + 1 + i] == b[i]);
    }
    assert(a =~= b);
}

/// No source path is a module path, whatever the directories and the
/// identifiers: the two end differently.
pub proof fn lemma_source_is_no_module(
    dir: Seq<char>,
    a: Seq<char>,
    other_dir: Seq<char>,
    b: Seq<char>,
)
    ensures
        source_file_of(dir, a) != module_file_of(other_dir, b),
{
    reveal_strlit("/");
    reveal_strlit(".src");
    reveal_strlit(".module");
    let p = source_file_of(dir, a);
    let q = module_file_of(other_dir, b);
    assert(p[p.len() - 1] == 'c');
    assert(q[q.len() - 1] == 'e');
}

/// Two builds in one directory that drew different identifiers share no
/// file: each of the two files of the one differs from each of the two files
/// of the other.
pub proof fn lemma_distinct_identifiers_never_collide(dir: Seq<char>, a: Seq<char>, b: Seq<char>)
    requires
        a != b,
    ensures
        source_file_of(dir, a) != source_file_of(dir, b),
        module_file_of(dir, a) != module_file_of(dir, b),
        source_file_of(dir, a) != module_file_of(dir, b),
        module_file_of(dir, a) != source_file_of(dir, b),
{
    if source_file_of(dir, a) == source_file_of(dir, b) {
        lemma_source_file_injective(dir, a, b);
    }
    if module_file_of(dir, a) == module_file_of(dir, b) {
        lemma_module_file_injective(dir, a, b);
    }
    lemma_source_is_no_module(dir, a, dir, b);
    lemma_source_is_no_module(dir, b, dir, a);
}

} // verus!
