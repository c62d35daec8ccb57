//! The validated command-line selection: which algorithm, which targets,
//! and whether failure lines are colorized.

use vstd::prelude::*;

use crate::target::Target;

verus! {

/// When colored output is wanted: always, never, or only on a terminal.
#[derive(Clone, Copy, Debug, PartialEq, Eq, Structural)]
pub enum Color {
    Auto,
    Always,
    Never,
}

/// Whether a colorization mode, resolved against terminal detection,
/// enables colored failure lines.
pub open spec fn color_enabled(c: Color, is_tty: bool) -> bool {
    match c {
        Color::Auto => is_tty,
        Color::Always => true,
        Color::Never => false,
    }
}

impl Color {
    /// Resolves this mode to the one boolean the reporter consumes.
    pub fn should_colorize(&self, is_tty: bool) -> (r: bool)
        ensures
            r == color_enabled(*self, is_tty),
    {
        match self {
            Color::Auto => is_tty,
            Color::Always => true,
            Color::Never => false,
        }
    }
}

/// The explicit path targets named on the command line.
#[derive(Clone, Debug)]
pub struct Args {
    pub paths: Vec<String>,
}

/// Whether the digest is to be calculated from standard input instead.
#[derive(Clone, Copy, Debug, PartialEq, Eq, Structural)]
pub struct Options {
    pub stdin: bool,
}

/// The selected digest algorithm, with the inputs it is to run on.
#[allow(non_camel_case_types)]
#[derive(Clone, Debug)]
pub enum Subcommand {
    MD5 { args: Args, options: Options },
    SHA1 { args: Args, options: Options },
    SHA2_224 { args: Args, options: Options },
    SHA2_256 { args: Args, options: Options },
    SHA2_384 { args: Args, options: Options },
    SHA2_512 { args: Args, options: Options },
}

/// The whole validated command line: one algorithm selection and the
/// colorization mode.
#[derive(Clone, Debug)]
pub struct Command {
    pub subcommand: Subcommand,
    pub color: Color,
}

/// Why a target selection is invalid: no target at all, or named paths
/// combined with the stdin flag — the two modes are mutually exclusive.
#[derive(Clone, Copy, Debug, PartialEq, Eq, Structural)]
pub enum SelectionError {
    NoTarget,
    PathsWithStdin,
}

/// Holds when a selection is well-formed: standard input with no named
/// paths, or at least one named path without standard input.
pub open spec fn selection_valid(paths: Seq<String>, stdin: bool) -> bool {
    if stdin {
        paths.len() == 0
    } else {
        paths.len() > 0
    }
}

/// The one ordered target sequence a valid selection resolves to: the
/// named paths in the order given, or the single standard-input target.
pub open spec fn resolved_targets(paths: Seq<String>, stdin: bool) -> Seq<Target> {
    if stdin {
        seq![Target::Stdin]
    } else {
        paths.map_values(|p: String| Target::Path(p))
    }
}

/// Resolves a selection to its target sequence, rejecting an empty
/// selection and the combination of named paths with standard input.
pub fn resolve_targets(args: &Args, options: &Options) -> (r: Result<Vec<Target>, SelectionError>)
    ensures
        r is Ok <==> selection_valid(args.paths@, options.stdin),
        r is Ok ==> r->Ok_0@ == resolved_targets(args.paths@, options.stdin),
        options.stdin && args.paths@.len() > 0 ==> r is Err && r->Err_0
            == SelectionError::PathsWithStdin,
        !options.stdin && args.paths@.len() == 0 ==> r is Err && r->Err_0
            == SelectionError::NoTarget,
{
    if options.stdin {
        if args.paths.len() > 0 {
            return Err(SelectionError::PathsWithStdin);
        }
        let mut targets: Vec<Target> = Vec::new();
        targets.push(Target::Stdin);
        proof {
            assert(targets@ =~= resolved_targets(args.paths@, options.stdin));
        }
        Ok(targets)
    } else {
        if args.paths.len() == 0 {
            return Err(SelectionError::NoTarget);
        }
        let n = args.paths.len();
        let mut targets: Vec<Target> = Vec::new();
        let mut i: usize = 0;
        while i < n
            invariant
                i <= n,
                n == args.paths@.len(),
                targets@.len() == i,
                forall|j: int| 0 <= j < i ==> targets@[j] == Target::Path(args.paths@[j]),
            decreases n - i,
        {
            targets.push(Target::Path(args.paths[i].clone()));
            i = i + 1;
        }
        proof {
            assert(targets@ =~= resolved_targets(args.paths@, options.stdin));
        }
        Ok(targets)
    }
}

/// The arguments of whichever algorithm was selected.
pub open spec fn subcommand_args(s: Subcommand) -> Args {
    match s {
        Subcommand::MD5 { args, .. } => args,
        Subcommand::SHA1 { args, .. } => args,
        Subcommand::SHA2_224 { args, .. } => args,
        Subcommand::SHA2_256 { args, .. } => args,
        Subcommand::SHA2_384 { args, .. } => args,
        Subcommand::SHA2_512 { args, .. } => args,
    }
}

/// The options of whichever algorithm was selected.
pub open spec fn subcommand_options(s: Subcommand) -> Options {
    match s {
        Subcommand::MD5 { options, .. } => options,
        Subcommand::SHA1 { options, .. } => options,
        Subcommand::SHA2_224 { options, .. } => options,
        Subcommand::SHA2_256 { options, .. } => options,
        Subcommand::SHA2_384 { options, .. } => options,
        Subcommand::SHA2_512 { options, .. } => options,
    }
}

impl Subcommand {
    /// The arguments the selected algorithm runs on.
    pub fn args(&self) -> (r: &Args)
        ensures
            *r == subcommand_args(*self),
    {
        match self {
            Subcommand::MD5 { args, .. } => args,
            Subcommand::SHA1 { args, .. } => args,
            Subcommand::SHA2_224 { args, .. } => args,
            Subcommand::SHA2_256 { args, .. } => args,
            Subcommand::SHA2_384 { args, .. } => args,
            Subcommand::SHA2_512 { args, .. } => args,
        }
    }

    /// The options the selected algorithm runs with.
    pub fn options(&self) -> (r: &Options)
        ensures
            *r == subcommand_options(*self),
    {
        match self {
            Subcommand::MD5 { options, .. } => options,
            Subcommand::SHA1 { options, .. } => options,
            Subcommand::SHA2_224 { options, .. } => options,
            Subcommand::SHA2_256 { options, .. } => options,
            Subcommand::SHA2_384 { options, .. } => options,
            Subcommand::SHA2_512 { options, .. } => options,
        }
    }

    /// Resolves this selection's targets, as `resolve_targets` does.
    pub fn targets(&self) -> (r: Result<Vec<Target>, SelectionError>)
        ensures
            r is Ok <==> selection_valid(
                subcommand_args(*self).paths@,
                subcommand_options(*self).stdin,
            ),
            r is Ok ==> r->Ok_0@ == resolved_targets(
                subcommand_args(*self).paths@,
                subcommand_options(*self).stdin,
            ),
            subcommand_options(*self).stdin && subcommand_args(*self).paths@.len() > 0 ==> r is Err
                && r->Err_0 == SelectionError::PathsWithStdin,
            !subcommand_options(*self).stdin && subcommand_args(*self).paths@.len() == 0 ==> r
                is Err && r->Err_0 == SelectionError::NoTarget,
    {
        resolve_targets(self.args(), self.options())
    }
}

impl Command {
    /// Resolves the one ordered target sequence of this command line.
    pub fn targets(&self) -> (r: Result<Vec<Target>, SelectionError>)
        ensures
            r is Ok <==> selection_valid(
                subcommand_args(self.subcommand).paths@,
                subcommand_options(self.subcommand).stdin,
            ),
            r is Ok ==> r->Ok_0@ == resolved_targets(
                subcommand_args(self.subcommand).paths@,
                subcommand_options(self.subcommand).stdin,
            ),
            subcommand_options(self.subcommand).stdin && subcommand_args(
                self.subcommand,
            ).paths@.len() > 0 ==> r is Err && r->Err_0 == SelectionError::PathsWithStdin,
            !subcommand_options(self.subcommand).stdin && subcommand_args(
                self.subcommand,
            ).paths@.len() == 0 ==> r is Err && r->Err_0 == SelectionError::NoTarget,
    {
        self.subcommand.targets()
    }

    /// Resolves this command's colorization mode to the reporter's flag.
    pub fn should_colorize(&self, is_tty: bool) -> (r: bool)
        ensures
            r == color_enabled(self.color, is_tty),
    {
        self.color.should_colorize(is_tty)
    }
}

} // verus!
