//! The build of one program fragment, one step at a time.
//!
//! A build writes the generated source text, runs the compiler on it and
//! loads the module the compiler produced. Each step is the caller's to
//! perform; after each the caller reports how it went and learns whether the
//! build goes on. The steps cannot be taken out of order: the value that
//! permits a step is only handed out when the step before it succeeded.

use crate::artifacts::{
    compiler_command, compiler_command_of, module_file, module_file_of, source_file,
    source_file_of,
};
use crate::error::{Error, ErrorView};
use crate::ident::{fresh_identifier, is_identifier};
use vstd::prelude::*;

verus! {

/// What a build is about: the directory its files go to, the identifier
/// that names them, and the identity of the program fragment it compiles.
pub struct BuildView {
    pub dir: Seq<char>,
    pub id: Seq<char>,
    pub fragment: Seq<char>,
}

impl BuildView {
    /// The path of the generated source text.
    pub open spec fn source_file(self) -> Seq<char> {
        source_file_of(self.dir, self.id)
    }

    /// The path of the compiled module.
    pub open spec fn module_file(self) -> Seq<char> {
        module_file_of(self.dir, self.id)
    }

    /// The command that compiles the one into the other.
    pub open spec fn compiler_command(self) -> Seq<Seq<char>> {
        compiler_command_of(self.source_file(), self.module_file())
    }
}

/// The identity of a program fragment: the segments of its tag, joined by
/// `/`.
pub open spec fn identity_of(tag: Seq<Seq<char>>) -> Seq<char>
    decreases tag.len(),
{
    if tag.len() == 0 {
        Seq::empty()
    } else if tag.len() == 1 {
        tag[0]
    } else {
        identity_of(tag.drop_last()) + "/"@ + tag.last()
    }
}

/// A report of the caller, with the cause of a failure as a sequence of
/// characters.
pub open spec fn report<T>(outcome: Result<T, String>) -> Result<T, Seq<char>> {
    match outcome {
        Ok(done) => Ok(done),
        Err(cause) => Err(cause@),
    }
}

/// What either side of a decision stands for.
pub open spec fn decided<T: View>(decision: Result<T, Error>) -> Result<T::V, ErrorView> {
    match decision {
        Ok(next) => Ok(next@),
        Err(error) => Err(error@),
    }
}

/// The build after the attempt to write the source text: it goes on
/// unchanged if the text was written, and ends with `WriteFailed` and the
/// cause if it was not.
pub open spec fn after_write(build: BuildView, outcome: Result<(), Seq<char>>) -> Result<
    BuildView,
    ErrorView,
> {
    match outcome {
        Ok(_) => Ok(build),
        Err(cause) => Err(ErrorView::WriteFailed { fragment: build.fragment, cause }),
    }
}

/// The build after the compiler was invoked. The exit status alone decides:
/// the build goes on if the compiler ran and reported success, and ends with
/// `CompileFailed` otherwise, which says why the compiler could not be run
/// if it could not, and nothing more if it ran.
pub open spec fn after_compile(build: BuildView, run: Result<bool, Seq<char>>) -> Result<
    BuildView,
    ErrorView,
> {
    match run {
        Ok(success) => if success {
            Ok(build)
        } else {
            Err(ErrorView::CompileFailed { fragment: build.fragment, launch: None })
        },
        Err(cause) => Err(
            ErrorView::CompileFailed { fragment: build.fragment, launch: Some(cause) },
        ),
    }
}

/// A build whose compiler did not report success ends there, with
/// `CompileFailed` for its fragment: no module is handed on to be loaded.
/// When the compiler ran and rejected the source text the error says no
/// more than that.
pub proof fn lemma_failed_compile_ends_build(build: BuildView, run: Result<bool, Seq<char>>)
    requires
        run != Ok::<bool, Seq<char>>(true),
    ensures
        after_compile(build, run) matches Err(error) && error is CompileFailed && error.fragment()
            == build.fragment,
        run == Ok::<bool, Seq<char>>(false) ==> after_compile(build, run) == Err::<
            BuildView,
            ErrorView,
        >(ErrorView::CompileFailed { fragment: build.fragment, launch: None }),
{
}

/// The identity of the fragment with the tag `tag`.
pub fn fragment_identity(tag: &Vec<String>) -> (identity: String)
    ensures
        identity@ == identity_of(tag.deep_view()),
{
    let ghost segments = tag.deep_view();
    let mut identity = String::new();
    let mut n: usize = 0;
    while n < tag.len()
        invariant
            n <= tag.len(),
            segments == tag.deep_view(),
            identity@ == identity_of(segments.take(n as int)),
        decreases tag.len() - n,
    {
        proof {
            let before = segments.take(n as int);
            let now = segments.take(n + 1);
            assert(now.drop_last() =~= before);
            assert(now.last() == tag[n as int]@);
            if n == 0 {
                assert(identity@ + tag[n as int]@ =~= tag[n as int]@);
            }
        }
        if n > 0 {
            identity.append("/");
        }
        identity.append(tag[n].as_str());
        n = n + 1;
    }
    assert(segments.take(n as int) =~= segments);
    identity
}

/// A build that has not begun: its files are named, nothing is written.
pub struct Plan {
    dir: String,
    id: String,
    fragment: String,
}

impl View for Plan {
    type V = BuildView;

    closed spec fn view(&self) -> BuildView {
        BuildView { dir: self.dir@, id: self.id@, fragment: self.fragment@ }
    }
}

/// A build whose source text is on disk.
pub struct Written {
    plan: Plan,
}

impl View for Written {
    type V = BuildView;

    closed spec fn view(&self) -> BuildView {
        self.plan@
    }
}

/// A build whose module is on disk, compiled and not yet loaded.
pub struct Compiled {
    plan: Plan,
}

impl View for Compiled {
    type V = BuildView;

    closed spec fn view(&self) -> BuildView {
        self.plan@
    }
}

impl Plan {
    /// Plans the build of the fragment tagged `tag` in `dir`, under the
    /// identifier `id`.
    pub fn named(dir: &str, id: &str, tag: &Vec<String>) -> (plan: Plan)
        ensures
            plan@ == (BuildView { dir: dir@, id: id@, fragment: identity_of(tag.deep_view()) }),
    {
        Plan {
            dir: String::from_str(dir),
            id: String::from_str(id),
            fragment: fragment_identity(tag),
        }
    }

    /// Plans the build of the fragment tagged `tag` in `dir`, under a fresh
    /// identifier.
    pub fn new(dir: &str, tag: &Vec<String>) -> (plan: Plan)
        ensures
            plan@.dir == dir@,
            plan@.fragment == identity_of(tag.deep_view()),
            is_identifier(plan@.id),
    {
        let id = fresh_identifier();
        Plan::named(dir, id.as_str(), tag)
    }

    /// The identifier that names the files of this build.
    pub fn id(&self) -> (id: &str)
        ensures
            id@ == self@.id,
    {
        self.id.as_str()
    }

    /// The identity of the fragment this build compiles.
    pub fn fragment(&self) -> (fragment: &str)
        ensures
            fragment@ == self@.fragment,
    {
        self.fragment.as_str()
    }

    /// Where the source text is to be written.
    pub fn source_file(&self) -> (path: String)
        ensures
            path@ == self@.source_file(),
    {
        source_file(self.dir.as_str(), self.id.as_str())
    }

    /// Where the compiler is to put the module.
    pub fn module_file(&self) -> (path: String)
        ensures
            path@ == self@.module_file(),
    {
        module_file(self.dir.as_str(), self.id.as_str())
    }

    /// Takes the report on writing the source text to `source_file()`.
    pub fn written(self, outcome: Result<(), String>) -> (next: Result<Written, Error>)
        ensures
            decided(next) == after_write(self@, report(outcome)),
    {
        match outcome {
            Ok(_) => Ok(Written { plan: self }),
            Err(cause) => Err(Error::WriteFailed { fragment: self.fragment, cause }),
        }
    }
}

impl Written {
    /// The identity of the fragment this build compiles.
    pub fn fragment(&self) -> (fragment: &str)
        ensures
            fragment@ == self@.fragment,
    {
        self.plan.fragment()
    }

    /// The command to run now: the program, then its arguments.
    pub fn compiler_command(&self) -> (command: Vec<String>)
        ensures
            command.deep_view() == self@.compiler_command(),
    {
        let source = self.plan.source_file();
        let module = self.plan.module_file();
        compiler_command(source.as_str(), module.as_str())
    }

    /// Takes the report on running `compiler_command()`: whether the
    /// compiler exited with success, or why it could not be run.
    pub fn compiled(self, run: Result<bool, String>) -> (next: Result<Compiled, Error>)
        ensures
            decided(next) == after_compile(self@, report(run)),
    {
        match run {
            Ok(success) => {
                if success {
                    Ok(Compiled { plan: self.plan })
                } else {
                    Err(Error::CompileFailed { fragment: self.plan.fragment, launch: None })
                }
            },
            Err(cause) => Err(
                Error::CompileFailed { fragment: self.plan.fragment, launch: Some(cause) },
            ),
        }
    }
}

impl Compiled {
    /// The identity of the fragment this build compiled.
    pub fn fragment(&self) -> (fragment: &str)
        ensures
            fragment@ == self@.fragment,
    {
        self.plan.fragment()
    }

    /// The file that holds the generated source text.
    pub fn source_file(&self) -> (path: String)
        ensures
            path@ == self@.source_file(),
    {
        self.plan.source_file()
    }

    /// The module to load now.
    pub fn module_file(&self) -> (path: String)
        ensures
            path@ == self@.module_file(),
    {
        self.plan.module_file()
    }
}

} // verus!
