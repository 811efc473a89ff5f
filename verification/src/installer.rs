//! Installing a bundle: which command to run, and what to make of its output.

use vstd::prelude::*;
use std::path::PathBuf;
use crate::config::{Compiler, CompilerSpec, DotfileEntry, Entry};
use crate::text::{decode_lossy, lossy_text, trim, trimmed};

verus! {

/// What an installation came to.
#[derive(Debug, Clone, PartialEq, Eq)]
pub struct InstallResult {
    /// Whether the command exited with success.
    pub success: bool,
    /// What the command wrote, standard output before standard error, without
    /// the white space around it.
    pub output: String,
}

/// A command to run: a program, its arguments and the directory to run it in.
#[derive(Debug, Clone)]
pub struct Invocation {
    pub program: String,
    pub args: Vec<String>,
    pub directory: PathBuf,
}

/// The mathematical value of an [`Invocation`].
pub struct Command {
    pub program: Seq<char>,
    pub args: Seq<Seq<char>>,
    pub directory: PathBuf,
}

impl View for Invocation {
    type V = Command;

    open spec fn view(&self) -> Command {
        Command {
            program: self.program@,
            args: self.args.deep_view(),
            directory: self.directory,
        }
    }
}

/// The program that installs a bundle with the given compiler. A `make`
/// bundle that ships an install script is installed by `bash`.
pub open spec fn program_for(compiler: CompilerSpec, has_install_script: bool) -> Seq<char> {
    match compiler {
        CompilerSpec::Gcc { .. } => "gcc"@,
        CompilerSpec::Make { .. } => if has_install_script {
            "bash"@
        } else {
            "make"@
        },
        CompilerSpec::Cargo { .. } => "cargo"@,
        CompilerSpec::Nix { .. } => "nix-build"@,
    }
}

/// The arguments that the program of [`program_for`] is run with.
pub open spec fn args_for(compiler: CompilerSpec, has_install_script: bool) -> Seq<Seq<char>> {
    match compiler {
        CompilerSpec::Gcc { flags } => match flags {
            Some(flags) => flags,
            None => Seq::empty(),
        },
        CompilerSpec::Make { target } => if has_install_script {
            seq!["install.sh"@]
        } else {
            match target {
                Some(target) => seq![target],
                None => seq!["install"@],
            }
        },
        CompilerSpec::Cargo { release } => if release == Some(true) {
            seq!["build"@, "--release"@]
        } else {
            seq!["build"@]
        },
        CompilerSpec::Nix { flake } => if flake == Some(true) {
            seq!["--flake"@]
        } else {
            Seq::empty()
        },
    }
}

/// The command that installs `entry`, run in the entry's own directory.
pub open spec fn command_for(entry: Entry, has_install_script: bool) -> Command {
    Command {
        program: program_for(entry.config.compiler, has_install_script),
        args: args_for(entry.config.compiler, has_install_script),
        directory: entry.path,
    }
}

/// What a command's output is recorded as: standard output, a line break
/// and standard error, each decoded leniently, without the white space
/// around the whole.
pub open spec fn combined_output(stdout: Seq<u8>, stderr: Seq<u8>) -> Seq<char> {
    trimmed(lossy_text(stdout) + seq!['\n'] + lossy_text(stderr))
}

/// The name of the script that a `make` bundle may ship, and that is then run
/// in place of `make`.
pub fn install_script_name() -> (name: &'static str)
    ensures
        name@ == "install.sh"@,
{
    "install.sh"
}

/// Whether the command for this compiler depends on an install script being
/// there: only `make` bundles look for one.
pub fn consults_install_script(compiler: &Compiler) -> (consults: bool)
    ensures
        consults == (compiler@ is Make),
        !consults ==> program_for(compiler@, true) == program_for(compiler@, false),
        !consults ==> args_for(compiler@, true) == args_for(compiler@, false),
{
    match compiler {
        Compiler::Make { .. } => true,
        _ => false,
    }
}

fn copy_strings(texts: &Vec<String>) -> (copy: Vec<String>)
    ensures
        copy@ == texts@,
{
    let mut copy: Vec<String> = Vec::new();
    let mut i: usize = 0;
    while i < texts.len()
        invariant
            0 <= i <= texts.len(),
            copy@ == texts@.take(i as int),
        decreases texts.len() - i,
    {
        copy.push(texts[i].clone());
        proof {
            assert(texts@.take(i + 1) =~= texts@.take(i as int).push(texts@[i as int]));
        }
        i += 1;
    }
    proof {
        assert(texts@.take(texts@.len() as int) =~= texts@);
    }
    copy
}

fn one(text: &str) -> (args: Vec<String>)
    ensures
        args.deep_view() == seq![text@],
{
    let mut args: Vec<String> = Vec::new();
    args.push(String::from_str(text));
    proof {
        assert(args.deep_view() =~= seq![text@]);
    }
    args
}

/// Chooses the command that installs `entry`. `has_install_script` says
/// whether the entry's directory holds a file named as
/// [`install_script_name`] gives; it matters for `make` bundles alone.
pub fn install_command(entry: &DotfileEntry, has_install_script: bool) -> (command: Invocation)
    ensures
        command@ == command_for(entry@, has_install_script),
{
    let directory = entry.path.clone();
    match &entry.config.compiler {
        Compiler::Gcc { flags } => {
            let args = match flags {
                Some(flags) => copy_strings(flags),
                None => Vec::new(),
            };
            proof {
                assert(args.deep_view() =~= args_for(entry@.config.compiler, has_install_script));
            }
            Invocation { program: String::from_str("gcc"), args, directory }
        },
        Compiler::Make { target } => {
            if has_install_script {
                Invocation { program: String::from_str("bash"), args: one("install.sh"), directory }
            } else {
                let args = match target {
                    Some(target) => one(target.as_str()),
                    None => one("install"),
                };
                Invocation { program: String::from_str("make"), args, directory }
            }
        },
        Compiler::Cargo { release } => {
            let mut args = one("build");
            proof {
                assert(args.deep_view().len() == 1 && args.deep_view()[0] == "build"@);
                assert(args@.len() == 1 && args@[0]@ == "build"@);
            }
            if let Some(true) = release {
                args.push(String::from_str("--release"));
            }
            proof {
                assert(args.deep_view() =~= args_for(entry@.config.compiler, has_install_script));
            }
            Invocation { program: String::from_str("cargo"), args, directory }
        },
        Compiler::Nix { flake } => {
            let mut args: Vec<String> = Vec::new();
            if let Some(true) = flake {
                args.push(String::from_str("--flake"));
            }
            proof {
                assert(args.deep_view() =~= args_for(entry@.config.compiler, has_install_script));
            }
            Invocation { program: String::from_str("nix-build"), args, directory }
        },
    }
}

/// Records what a command came to: its exit status as it is, and its two
/// output streams as [`combined_output`] joins them.
pub fn install_result(success: bool, stdout: &[u8], stderr: &[u8]) -> (result: InstallResult)
    ensures
        result.success == success,
        result.output@ == combined_output(stdout@, stderr@),
{
    let mut combined = decode_lossy(stdout);
    let errors = decode_lossy(stderr);
    proof {
        reveal_strlit("\n");
        assert("\n"@ =~= seq!['\n']);
    }
    combined.append("\n");
    combined.append(errors.as_str());
    let output = trim(combined.as_str());
    InstallResult { success, output }
}

/// A `make` bundle that ships an install script is never installed by
/// `make`, whatever target it names: the script is run by `bash`.
pub proof fn lemma_script_replaces_make(target: Option<Seq<char>>)
    ensures
        program_for(CompilerSpec::Make { target }, true) == "bash"@,
        program_for(CompilerSpec::Make { target }, true) != "make"@,
        args_for(CompilerSpec::Make { target }, true) == seq!["install.sh"@],
{
    reveal_strlit("bash");
    reveal_strlit("make");
    assert("bash"@[0] != "make"@[0]);
}

} // verus!
