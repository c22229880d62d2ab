use vstd::prelude::*;

use crate::command::{copy_env, copy_strings, extend_strings, env_of, strings_of, CommandSpec};

verus! {

/// How a flag turns into command line arguments.
#[derive(Clone, Copy, Debug, PartialEq, Eq)]
pub enum FlagType {
    /// The flag's name alone: `--flag`.
    Bool,
    /// The flag's name, then its values joined by spaces as one argument:
    /// `--flag "a b c"`.
    List,
    /// The flag's name, then each of its values as an argument: `--flag a b`.
    Args,
    /// The values alone, as the flag renders them: `a b c`.
    Custom,
}

impl FlagType {
    /// A flag whose values form one space-separated argument.
    pub fn list() -> (r: FlagType)
        ensures
            r == FlagType::List,
    {
        FlagType::List
    }

    /// A flag followed by its value as it is written out.
    pub fn infer() -> (r: FlagType)
        ensures
            r == FlagType::Args,
    {
        FlagType::Args
    }
}

/// Something that contributes arguments to a nix command line.
pub trait ToArgs {
    fn args(&self) -> Vec<String>;
}

/// A setting of nix that is passed as a flag.
pub trait Flag {
    /// The flag's name, such as `--impure`.
    fn flag() -> &'static str;

    /// How the flag is rendered.
    fn flag_type() -> FlagType;

    /// The flag's values; a `Bool` flag has none.
    fn values(&self) -> Vec<String>;
}

/// `parts` with `sep` between each two of them.
pub open spec fn joined(parts: Seq<Seq<char>>, sep: Seq<char>) -> Seq<char>
    decreases parts.len(),
{
    if parts.len() == 0 {
        Seq::<char>::empty()
    } else if parts.len() == 1 {
        parts[0]
    } else {
        joined(parts.drop_last(), sep) + sep + parts.last()
    }
}

/// The arguments for a flag named `flag` of kind `kind` with `values`.
pub open spec fn rendered(flag: Seq<char>, kind: FlagType, values: Seq<Seq<char>>) -> Seq<Seq<char>> {
    match kind {
        FlagType::Bool => seq![flag],
        FlagType::List => seq![flag, joined(values, " "@)],
        FlagType::Args => seq![flag] + values,
        FlagType::Custom => values,
    }
}

/// Joins `parts` with single spaces.
pub fn join_spaced(parts: &Vec<String>) -> (r: String)
    ensures
        r@ == joined(strings_of(parts@), " "@),
{
    let mut r = String::new();
    let mut i: usize = 0;
    while i < parts.len()
        invariant
            0 <= i <= parts@.len(),
            r@ == joined(strings_of(parts@.subrange(0, i as int)), " "@),
        decreases parts@.len() - i,
    {
        let ghost before = strings_of(parts@.subrange(0, i as int));
        let ghost after = strings_of(parts@.subrange(0, i + 1));
        assert(after.drop_last() =~= before);
        assert(after.last() == parts@[i as int]@);
        if i > 0 {
            r.append(" ");
        }
        r.append(parts[i].as_str());
        if i == 0 {
            assert(r@ =~= joined(after, " "@));
        }
        i = i + 1;
    }
    assert(parts@.subrange(0, parts@.len() as int) =~= parts@);
    r
}

/// The arguments of a flag, from its name, kind and values.
pub fn render_flag(flag: &str, kind: FlagType, values: Vec<String>) -> (r: Vec<String>)
    ensures
        strings_of(r@) == rendered(flag@, kind, strings_of(values@)),
{
    match kind {
        FlagType::Bool => {
            let r: Vec<String> = vec![flag.to_owned()];
            assert(strings_of(r@) =~= rendered(flag@, kind, strings_of(values@)));
            r
        },
        FlagType::List => {
            let r: Vec<String> = vec![flag.to_owned(), join_spaced(&values)];
            assert(strings_of(r@) =~= rendered(flag@, kind, strings_of(values@)));
            r
        },
        FlagType::Args => {
            let mut r: Vec<String> = vec![flag.to_owned()];
            assert(strings_of(r@) =~= seq![flag@]);
            extend_strings(&mut r, &values);
            r
        },
        FlagType::Custom => values,
    }
}

impl<T: Flag> ToArgs for T {
    fn args(&self) -> Vec<String> {
        render_flag(T::flag(), T::flag_type(), self.values())
    }
}

/// The arguments of an optional setting: none when it is absent.
pub fn optional_args<T: ToArgs>(t: &Option<T>) -> (r: Vec<String>)
    ensures
        t is None ==> r@.len() == 0,
{
    match t {
        Some(x) => x.args(),
        None => Vec::new(),
    }
}

/// The settings every nix invocation starts from.
pub struct NixCommandLineDefaults {
    /// Variables merged into the inherited environment.
    pub environment: Vec<(String, String)>,
    /// The rendered common arguments.
    pub common_args: Vec<String>,
    /// The rendered flake arguments.
    pub flake_args: Vec<String>,
    /// The rendered evaluation arguments.
    pub eval_args: Vec<String>,
    /// The rendered configuration arguments.
    pub config_args: Vec<String>,
}

/// Nix, driven through its command line.
pub struct NixCommandLine {
    /// The nix binary; `nix` from the search path when absent.
    pub nix_bin: Option<String>,
    /// What every invocation starts from.
    pub defaults: NixCommandLineDefaults,
}

/// Why a nix response was refused.
#[derive(Clone, Debug, PartialEq, Eq)]
pub enum NixError {
    /// Stdout or stderr was not valid UTF-8.
    InvalidUtf8,
    /// Nix wrote this to stderr.
    ErrorResponse(String),
}

/// The text that `std::str::from_utf8` decodes from `b`, none when `b` is
/// not valid UTF-8.
pub uninterp spec fn utf8_text(b: Seq<u8>) -> Option<Seq<char>>;

/// Relies on `std::str::from_utf8`: the text of `b` when it is valid UTF-8;
/// the result depends on the bytes alone.
#[verifier::external_body]
fn decode_utf8(b: &[u8]) -> (r: Option<String>)
    ensures
        utf8_text(b@) == (match r {
            Some(s) => Some(s@),
            None => None::<Seq<char>>,
        }),
{
    match std::str::from_utf8(b) {
        Ok(s) => Some(s.to_owned()),
        Err(_) => None,
    }
}

/// What a nix response means, from its decoded stdout and stderr: stdout
/// when both decoded and stderr is empty.
pub fn nix_response_from(stdout: Option<String>, stderr: Option<String>) -> (r: Result<String, NixError>)
    ensures
        (stdout is None || stderr is None) ==> r == Err::<String, NixError>(NixError::InvalidUtf8),
        (stdout is Some && stderr is Some) ==> (if stderr->0@.len() == 0 {
            r matches Ok(s) && s@ == stdout->0@
        } else {
            r matches Err(NixError::ErrorResponse(m)) && m@ == stderr->0@
        }),
{
    match (stdout, stderr) {
        (Some(o), Some(e)) => if e.as_str().is_empty() {
            Ok(o)
        } else {
            Err(NixError::ErrorResponse(e))
        },
        _ => Err(NixError::InvalidUtf8),
    }
}

/// What a nix response means, from its raw stdout and stderr.
pub fn nix_response(stdout: &[u8], stderr: &[u8]) -> (r: Result<String, NixError>)
    ensures
        (utf8_text(stdout@) is None || utf8_text(stderr@) is None) ==> r == Err::<String, NixError>(
            NixError::InvalidUtf8,
        ),
        (utf8_text(stdout@) is Some && utf8_text(stderr@) is Some) ==> (if utf8_text(
            stderr@,
        )->0.len() == 0 {
            r matches Ok(s) && s@ == utf8_text(stdout@)->0
        } else {
            r matches Err(NixError::ErrorResponse(m)) && m@ == utf8_text(stderr@)->0
        }),
{
    let o = decode_utf8(stdout);
    let e = decode_utf8(stderr);
    nix_response_from(o, e)
}

impl NixCommandLine {
    /// The binary to run.
    pub fn program(&self) -> (r: String)
        ensures
            r@ == (match self.nix_bin {
                Some(b) => b@,
                None => "nix"@,
            }),
    {
        match &self.nix_bin {
            Some(b) => b.clone(),
            None => "nix".to_owned(),
        }
    }

    /// The invocation that runs `args` with the default environment only.
    pub fn run_in_nix_command(&self, args: &Vec<String>) -> (r: CommandSpec)
        ensures
            r.program@ == (match self.nix_bin {
                Some(b) => b@,
                None => "nix"@,
            }),
            r.args_view() == strings_of(args@),
            r.env_view() == env_of(self.defaults.environment@),
    {
        CommandSpec {
            program: self.program(),
            args: copy_strings(args),
            envs: copy_env(&self.defaults.environment),
        }
    }

    /// The invocation that runs `args` after the default configuration and
    /// common arguments, with the default environment.
    pub fn run_command(&self, args: &Vec<String>) -> (r: CommandSpec)
        ensures
            r.program@ == (match self.nix_bin {
                Some(b) => b@,
                None => "nix"@,
            }),
            r.args_view() == strings_of(self.defaults.config_args@) + strings_of(
                self.defaults.common_args@,
            ) + strings_of(args@),
            r.env_view() == env_of(self.defaults.environment@),
    {
        let mut all = copy_strings(&self.defaults.config_args);
        extend_strings(&mut all, &self.defaults.common_args);
        extend_strings(&mut all, args);
        CommandSpec { program: self.program(), args: all, envs: copy_env(&self.defaults.environment) }
    }
}

} // verus!
