use vstd::prelude::*;

use crate::command::{copy_strings, strings_of, CommandSpec};
use crate::output::ExitStatus;

verus! {

/// The text that `String::from_utf8_lossy` makes of `b`.
pub uninterp spec fn lossy_text(b: Seq<u8>) -> Seq<char>;

/// Relies on `String::from_utf8_lossy`: the text of `b`, each invalid
/// sequence replaced by U+FFFD; the result depends on the bytes alone.
#[verifier::external_body]
fn decode_lossy(b: &[u8]) -> (r: String)
    ensures
        r@ == lossy_text(b@),
{
    String::from_utf8_lossy(b).into_owned()
}

/// The arguments that bind the make driver to its makefile, its working
/// directory and the rendered environment.
pub open spec fn driver_args(build_mk: Seq<char>, base_dir: Seq<char>, flox_env: Seq<char>) -> Seq<
    Seq<char>,
> {
    seq!["-f"@, build_mk, "-C"@, base_dir, "FLOX_ENV="@ + flox_env]
}

/// The goals for `packages`: `all` alone when there are none, else each
/// package name behind `prefix`, in order and with repeats kept.
pub open spec fn goals(all: Seq<char>, prefix: Seq<char>, packages: Seq<Seq<char>>) -> Seq<Seq<char>> {
    if packages.len() == 0 {
        seq![all]
    } else {
        packages.map_values(|p: Seq<char>| prefix + p)
    }
}

/// A package builder that runs a makefile through GNU make.
pub struct FloxBuildMk {
    /// The make binary.
    pub gnumake_bin: String,
    /// The makefile that knows how to build and clean packages.
    pub build_mk: String,
}

/// Why a build or clean did not go through.
#[derive(Debug)]
pub enum ManifestBuilderError {
    /// The make driver could not be started; holds the system's message.
    CallBuilderError(String),
    /// The clean run exited unsuccessfully; holds all it wrote and its status.
    RunClean { stdout: String, stderr: String, status: ExitStatus },
}

/// The goals for `packages`, as strings.
fn goal_targets(all: &str, prefix: &str, packages: &Vec<String>) -> (r: Vec<String>)
    ensures
        strings_of(r@) == goals(all@, prefix@, strings_of(packages@)),
{
    let mut r: Vec<String> = Vec::new();
    if packages.len() == 0 {
        r.push(all.to_owned());
        assert(strings_of(r@) =~= goals(all@, prefix@, strings_of(packages@)));
        return r;
    }
    let mut i: usize = 0;
    while i < packages.len()
        invariant
            0 <= i <= packages@.len(),
            strings_of(r@) == strings_of(packages@.subrange(0, i as int)).map_values(
                |p: Seq<char>| prefix@ + p,
            ),
        decreases packages@.len() - i,
    {
        let t = prefix.to_owned().concat(packages[i].as_str());
        let ghost prev = r@;
        r.push(t);
        assert(strings_of(r@) =~= strings_of(prev).push(prefix@ + packages@[i as int]@));
        assert(strings_of(packages@.subrange(0, i + 1)) =~= strings_of(
            packages@.subrange(0, i as int),
        ).push(packages@[i as int]@));
        assert(strings_of(r@) =~= strings_of(packages@.subrange(0, i + 1)).map_values(
            |p: Seq<char>| prefix@ + p,
        ));
        i = i + 1;
    }
    assert(packages@.subrange(0, packages@.len() as int) =~= packages@);
    r
}

impl FloxBuildMk {
    /// The make invocation shared by build and clean, before its goals.
    pub fn base_command(&self, base_dir: &str, flox_env: &str) -> (r: CommandSpec)
        ensures
            r.program@ == self.gnumake_bin@,
            r.args_view() == driver_args(self.build_mk@, base_dir@, flox_env@),
            r.envs@.len() == 0,
    {
        let args: Vec<String> = vec![
            "-f".to_owned(),
            self.build_mk.clone(),
            "-C".to_owned(),
            base_dir.to_owned(),
            "FLOX_ENV=".to_owned().concat(flox_env),
        ];
        let r = CommandSpec { program: self.gnumake_bin.clone(), args, envs: Vec::new() };
        assert(r.args_view() =~= driver_args(self.build_mk@, base_dir@, flox_env@));
        r
    }

    fn with_goals(&self, base_dir: &str, flox_env: &str, all: &str, prefix: &str, packages: &Vec<String>) -> (r: CommandSpec)
        ensures
            r.program@ == self.gnumake_bin@,
            r.args_view() == driver_args(self.build_mk@, base_dir@, flox_env@) + goals(
                all@,
                prefix@,
                strings_of(packages@),
            ),
            r.envs@.len() == 0,
    {
        let mut r = self.base_command(base_dir, flox_env);
        let targets = goal_targets(all, prefix, packages);
        crate::command::extend_strings(&mut r.args, &targets);
        r
    }

    /// The make invocation that builds `packages` in `base_dir`: goal
    /// `build/<name>` for each package, or `build` for all of them.
    pub fn build_command(&self, base_dir: &str, flox_env: &str, packages: &Vec<String>) -> (r: CommandSpec)
        ensures
            r.program@ == self.gnumake_bin@,
            r.args_view() == driver_args(self.build_mk@, base_dir@, flox_env@) + goals(
                "build"@,
                "build/"@,
                strings_of(packages@),
            ),
            r.envs@.len() == 0,
    {
        self.with_goals(base_dir, flox_env, "build", "build/", packages)
    }

    /// The make invocation that cleans `packages` in `base_dir`: goal
    /// `clean/<name>` for each package, or `clean` for all of them.
    pub fn clean_command(&self, base_dir: &str, flox_env: &str, packages: &Vec<String>) -> (r: CommandSpec)
        ensures
            r.program@ == self.gnumake_bin@,
            r.args_view() == driver_args(self.build_mk@, base_dir@, flox_env@) + goals(
                "clean"@,
                "clean/"@,
                strings_of(packages@),
            ),
            r.envs@.len() == 0,
    {
        self.with_goals(base_dir, flox_env, "clean", "clean/", packages)
    }
}

/// The result of a finished clean run, from its status and decoded output:
/// success exactly when it exited with code 0, else everything it wrote.
pub fn clean_outcome(status: ExitStatus, stdout: String, stderr: String) -> (r: Result<(), ManifestBuilderError>)
    ensures
        r is Ok <==> status.spec_success(),
        !status.spec_success() ==> (r matches Err(ManifestBuilderError::RunClean { stdout: o, stderr: e, status: s })
            && o@ == stdout@ && e@ == stderr@ && s == status),
{
    if status.success() {
        Ok(())
    } else {
        Err(ManifestBuilderError::RunClean { stdout, stderr, status })
    }
}

/// The result of a finished clean run, from its status and raw output.
pub fn clean_result(status: ExitStatus, stdout: &[u8], stderr: &[u8]) -> (r: Result<(), ManifestBuilderError>)
    ensures
        r is Ok <==> status.spec_success(),
        !status.spec_success() ==> (r matches Err(ManifestBuilderError::RunClean { stdout: o, stderr: e, status: s })
            && o@ == lossy_text(stdout@) && e@ == lossy_text(stderr@) && s == status),
{
    let e = decode_lossy(stderr);
    let o = decode_lossy(stdout);
    clean_outcome(status, o, e)
}

} // verus!
