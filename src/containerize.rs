use vstd::prelude::*;

use crate::command::{strings_of, CommandSpec};

verus! {

/// The container runtime to load an image into.
#[derive(Clone, Copy, Debug, PartialEq, Eq)]
pub enum Runtime {
    Docker,
    Podman,
}

/// A name that is neither `docker` nor `podman`.
#[derive(Clone, Debug, PartialEq, Eq)]
pub struct RuntimeParseError {
    pub given: String,
}

impl RuntimeParseError {
    /// What went wrong, for a person to read.
    pub fn message(&self) -> (r: String)
        ensures
            r@ == "Registry must be 'docker' or 'podman'"@,
    {
        "Registry must be 'docker' or 'podman'".to_owned()
    }
}

impl Runtime {
    /// The runtime's executable, which is also the name it is chosen by.
    pub open spec fn spec_name(self) -> Seq<char> {
        match self {
            Runtime::Docker => "docker"@,
            Runtime::Podman => "podman"@,
        }
    }

    pub fn command_name(&self) -> (r: &'static str)
        ensures
            r@ == self.spec_name(),
    {
        match self {
            Runtime::Docker => "docker",
            Runtime::Podman => "podman",
        }
    }

    /// The runtime that `s` names; only `docker` and `podman` are known.
    pub fn parse(s: &str) -> (r: Result<Runtime, RuntimeParseError>)
        ensures
            s@ == "docker"@ ==> r == Ok::<Runtime, RuntimeParseError>(Runtime::Docker),
            s@ == "podman"@ ==> r == Ok::<Runtime, RuntimeParseError>(Runtime::Podman),
            s@ != "docker"@ && s@ != "podman"@ ==> (r matches Err(e) && e.given@ == s@),
    {
        proof {
            reveal_strlit("docker");
            reveal_strlit("podman");
            assert("docker"@[0] != "podman"@[0]);
        }
        let given = s.to_owned();
        if given == "docker".to_owned() {
            Ok(Runtime::Docker)
        } else if given == "podman".to_owned() {
            Ok(Runtime::Podman)
        } else {
            Err(RuntimeParseError { given })
        }
    }

    /// How the runtime is named to a person.
    pub fn describe(&self) -> (r: String)
        ensures
            r@ == (match self {
                Runtime::Docker => "Docker runtime"@,
                Runtime::Podman => "Podman runtime"@,
            }),
    {
        match self {
            Runtime::Docker => "Docker runtime".to_owned(),
            Runtime::Podman => "Podman runtime".to_owned(),
        }
    }

    /// The process that loads an image read from its stdin: `<runtime> load`.
    pub fn load_command(&self) -> (r: CommandSpec)
        ensures
            r.program@ == self.spec_name(),
            r.args_view() == seq!["load"@],
            r.envs@.len() == 0,
    {
        let args: Vec<String> = vec!["load".to_owned()];
        let r = CommandSpec { program: self.command_name().to_owned(), args, envs: Vec::new() };
        assert(r.args_view() =~= seq!["load"@]);
        r
    }
}

impl core::str::FromStr for Runtime {
    type Err = RuntimeParseError;

    fn from_str(s: &str) -> Result<Runtime, RuntimeParseError> {
        Runtime::parse(s)
    }
}

/// Where an image file goes: a path, or stdout.
#[derive(Clone, Debug, PartialEq, Eq)]
pub enum FileOrStdout {
    File(String),
    Stdout,
}

impl FileOrStdout {
    /// `-` stands for stdout; anything else is a path.
    pub fn parse(s: &str) -> (r: FileOrStdout)
        ensures
            s@ == "-"@ ==> r is Stdout,
            s@ != "-"@ ==> (r matches FileOrStdout::File(p) && p@ == s@),
    {
        let given = s.to_owned();
        if given == "-".to_owned() {
            FileOrStdout::Stdout
        } else {
            FileOrStdout::File(given)
        }
    }
}

/// Where a container image is written.
#[derive(Clone, Debug, PartialEq, Eq)]
pub enum OutputTarget {
    File(FileOrStdout),
    Runtime(Runtime),
}

/// The file an environment's image goes to when no runtime is at hand.
pub open spec fn default_file_name(env_name: Seq<char>) -> Seq<char> {
    env_name + "-container.tar"@
}

/// The runtime found first when the directories of a search path are looked
/// through in order, `docker` before `podman` within one directory; each entry
/// tells whether the directory holds `docker` and whether it holds `podman`.
pub open spec fn first_runtime(dirs: Seq<(bool, bool)>) -> Option<Runtime>
    decreases dirs.len(),
{
    if dirs.len() == 0 {
        None
    } else if dirs[0].0 {
        Some(Runtime::Docker)
    } else if dirs[0].1 {
        Some(Runtime::Podman)
    } else {
        first_runtime(dirs.drop_first())
    }
}

/// The runtime found first on a search path; see [first_runtime].
pub fn first_runtime_in_path(dirs: &Vec<(bool, bool)>) -> (r: Option<Runtime>)
    ensures
        r == first_runtime(dirs@),
{
    let mut i: usize = 0;
    assert(dirs@.subrange(0, dirs@.len() as int) =~= dirs@);
    while i < dirs.len()
        invariant
            0 <= i <= dirs@.len(),
            first_runtime(dirs@) == first_runtime(dirs@.subrange(i as int, dirs@.len() as int)),
        decreases dirs@.len() - i,
    {
        let ghost tail = dirs@.subrange(i as int, dirs@.len() as int);
        assert(tail[0] == dirs@[i as int]);
        if dirs[i].0 {
            return Some(Runtime::Docker);
        }
        if dirs[i].1 {
            return Some(Runtime::Podman);
        }
        assert(tail.drop_first() =~= dirs@.subrange(i + 1, dirs@.len() as int));
        i = i + 1;
    }
    assert(dirs@.subrange(i as int, dirs@.len() as int) =~= Seq::<(bool, bool)>::empty());
    None
}

impl OutputTarget {
    /// The image file named after the environment.
    pub fn default_file(env_name: &str) -> (r: OutputTarget)
        ensures
            r matches OutputTarget::File(FileOrStdout::File(p)) && p@ == default_file_name(env_name@),
    {
        OutputTarget::File(FileOrStdout::File(env_name.to_owned().concat("-container.tar")))
    }

    /// The runtime that was found on the search path, else the image file
    /// named after the environment.
    pub fn detect_or_default(env_name: &str, found: Option<Runtime>) -> (r: OutputTarget)
        ensures
            found matches Some(rt) ==> r == OutputTarget::Runtime(rt),
            found is None ==> (r matches OutputTarget::File(FileOrStdout::File(p)) && p@
                == default_file_name(env_name@)),
    {
        match found {
            Some(rt) => OutputTarget::Runtime(rt),
            None => OutputTarget::default_file(env_name),
        }
    }

    /// A copy of this target.
    pub fn duplicate(&self) -> (r: OutputTarget)
        ensures
            r == *self,
    {
        match self {
            OutputTarget::File(FileOrStdout::File(p)) => OutputTarget::File(
                FileOrStdout::File(p.clone()),
            ),
            OutputTarget::File(FileOrStdout::Stdout) => OutputTarget::File(FileOrStdout::Stdout),
            OutputTarget::Runtime(rt) => OutputTarget::Runtime(*rt),
        }
    }

    /// How the target is named to a person.
    pub fn describe(&self) -> (r: String)
        ensures
            r@ == (match self {
                OutputTarget::File(FileOrStdout::File(p)) => "file '"@ + p@ + "'"@,
                OutputTarget::File(FileOrStdout::Stdout) => "stdout"@,
                OutputTarget::Runtime(Runtime::Docker) => "Docker runtime"@,
                OutputTarget::Runtime(Runtime::Podman) => "Podman runtime"@,
            }),
    {
        match self {
            OutputTarget::File(FileOrStdout::File(p)) => "file '".to_owned().concat(
                p.as_str(),
            ).concat("'"),
            OutputTarget::File(FileOrStdout::Stdout) => "stdout".to_owned(),
            OutputTarget::Runtime(rt) => rt.describe(),
        }
    }
}

/// What to containerize and where the image goes.
#[derive(Clone, Debug)]
pub struct Containerize {
    /// Where to write the image; chosen from the search path when absent.
    pub output: Option<OutputTarget>,
    /// The tag of the image; `latest` when absent.
    pub tag: Option<String>,
}

impl Containerize {
    /// The tag to apply to the image.
    pub fn output_tag(&self) -> (r: String)
        ensures
            r@ == (match self.tag {
                Some(t) => t@,
                None => "latest"@,
            }),
    {
        match &self.tag {
            Some(t) => t.clone(),
            None => "latest".to_owned(),
        }
    }

    /// The target given, else the one detected for `env_name`.
    pub fn output_target(&self, env_name: &str, found: Option<Runtime>) -> (r: OutputTarget)
        ensures
            self.output matches Some(t) ==> r == t,
            self.output is None && found is Some ==> r == OutputTarget::Runtime(found->0),
            self.output is None && found is None ==> (r matches OutputTarget::File(
                FileOrStdout::File(p),
            ) && p@ == default_file_name(env_name@)),
    {
        match &self.output {
            Some(t) => t.duplicate(),
            None => OutputTarget::detect_or_default(env_name, found),
        }
    }
}

} // verus!
