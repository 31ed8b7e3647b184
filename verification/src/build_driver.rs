//! The build that produces the binary, and where that binary is found.
//!
//! Nothing here starts a process: the library describes the build, and the
//! caller runs it.

use vstd::prelude::*;
use vstd::string::StringExecFns;

use crate::options::{Opts, OptsView};

verus! {

/// A build to run: the program, its arguments in order, and the environment
/// variables to set for it on top of the inherited environment.
#[derive(Debug, Clone, PartialEq, Eq)]
pub struct BuildCommand {
    pub program: String,
    pub args: Vec<String>,
    pub env: Vec<(String, String)>,
}

/// The mathematical content of a [`BuildCommand`].
pub struct BuildCommandView {
    pub program: Seq<char>,
    pub args: Seq<Seq<char>>,
    pub env: Seq<(Seq<char>, Seq<char>)>,
}

impl View for BuildCommand {
    type V = BuildCommandView;

    open spec fn view(&self) -> BuildCommandView {
        BuildCommandView {
            program: self.program@,
            args: self.args.deep_view(),
            env: self.env.deep_view(),
        }
    }
}

/// The build program: the native build tool, or the cross-compilation
/// front-end when a target is given.
pub open spec fn build_program(opts: OptsView) -> Seq<char> {
    if opts.target is Some {
        "cross"@
    } else {
        "cargo"@
    }
}

/// The build arguments: the whole workspace, only the named binary, then the
/// release flag if asked for, then the target if given.
pub open spec fn build_args(opts: OptsView) -> Seq<Seq<char>> {
    seq!["build"@, "--workspace"@, "--bin"@, opts.bin] + (if opts.release {
        seq!["--release"@]
    } else {
        Seq::empty()
    }) + (match opts.target {
        Some(triple) => seq!["--target"@, triple],
        None => Seq::empty(),
    })
}

/// The variables set for the build. A native build gets the inherited
/// compiler flags, or the empty string where none are inherited; a cross
/// build gets nothing set.
pub open spec fn build_env(opts: OptsView, inherited_flags: Option<Seq<char>>) -> Seq<
    (Seq<char>, Seq<char>),
> {
    match opts.target {
        Some(_) => Seq::empty(),
        None => seq![
            (
                "RUSTFLAGS"@,
                match inherited_flags {
                    Some(flags) => flags,
                    None => Seq::empty(),
                },
            ),
        ],
    }
}

/// The whole build for these options.
pub open spec fn build_of(opts: OptsView, inherited_flags: Option<Seq<char>>) -> BuildCommandView {
    BuildCommandView {
        program: build_program(opts),
        args: build_args(opts),
        env: build_env(opts, inherited_flags),
    }
}

/// The directory of the build profile: `release` with the release flag,
/// `debug` without.
pub open spec fn profile_name(release: bool) -> Seq<char> {
    if release {
        "release"@
    } else {
        "debug"@
    }
}

/// Where the built binary is expected: under `./target`, then the target
/// triple if there is one, then the profile, then the binary's name.
pub open spec fn binary_path_of(opts: OptsView) -> Seq<char> {
    "./target/"@ + (match opts.target {
        Some(triple) => triple + "/"@,
        None => Seq::empty(),
    }) + profile_name(opts.release) + "/"@ + opts.bin
}

/// The profile is `release` exactly when the release flag is set.
pub proof fn profile_follows_flag(release: bool)
    ensures
        profile_name(release) == "release"@ <==> release,
        profile_name(release) == "debug"@ <==> !release,
{
    reveal_strlit("release");
    reveal_strlit("debug");
    assert("release"@.len() != "debug"@.len());
}

/// Describes the build for `opts`. `inherited_flags` is the value of the
/// build-flags variable in the caller's environment, if it is set.
pub fn build_command(opts: &Opts, inherited_flags: Option<String>) -> (command: BuildCommand)
    ensures
        command@ == build_of(opts@, inherited_flags.deep_view()),
{
    let program = if opts.target.is_some() {
        String::from_str("cross")
    } else {
        String::from_str("cargo")
    };
    let mut args: Vec<String> = Vec::new();
    args.push(String::from_str("build"));
    args.push(String::from_str("--workspace"));
    args.push(String::from_str("--bin"));
    args.push(opts.bin.clone());
    if opts.release {
        args.push(String::from_str("--release"));
    }
    let mut env: Vec<(String, String)> = Vec::new();
    match &opts.target {
        Some(triple) => {
            args.push(String::from_str("--target"));
            args.push(triple.clone());
        },
        None => {
            let flags = match inherited_flags {
                Some(flags) => flags,
                None => String::new(),
            };
            env.push((String::from_str("RUSTFLAGS"), flags));
        },
    }
    let command = BuildCommand { program, args, env };
    assert(command@.args =~= build_args(opts@));
    assert(command@.env =~= build_env(opts@, inherited_flags.deep_view()));
    command
}

/// The path at which the build leaves the binary. The path is not looked up:
/// whether a file is there shows when the backend opens it.
pub fn binary_path(opts: &Opts) -> (path: String)
    ensures
        path@ == binary_path_of(opts@),
{
    let mut path = String::from_str("./target/");
    match &opts.target {
        Some(triple) => {
            path.append(triple.as_str());
            path.append("/");
        },
        None => {},
    }
    if opts.release {
        path.append("release");
    } else {
        path.append("debug");
    }
    path.append("/");
    path.append(opts.bin.as_str());
    assert(path@ =~= binary_path_of(opts@));
    path
}

} // verus!
