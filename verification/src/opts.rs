//! The command line: which operation is asked for, and with what.

use crate::api::ReportKind;
use crate::api::ReportKindView;
use crate::error::Error;
use crate::text::same;
use vstd::prelude::*;
use vstd::slice::slice_subrange;

verus! {

/// One command, as the command line gives it.
#[derive(Debug, Clone, PartialEq, Eq)]
pub enum Opts {
    CustomBuild { repo_url: String, commit_sha: String },
    CrateBuild { toolchain: String },
    Report { kind: ReportKind },
    SelfTest,
}

/// The texts of a command.
pub enum OptsView {
    CustomBuild { repo_url: Seq<char>, commit_sha: Seq<char> },
    CrateBuild { toolchain: Seq<char> },
    Report { kind: ReportKindView },
    SelfTest,
}

impl View for Opts {
    type V = OptsView;

    open spec fn view(&self) -> OptsView {
        match self {
            Opts::CustomBuild { repo_url, commit_sha } => OptsView::CustomBuild {
                repo_url: repo_url@,
                commit_sha: commit_sha@,
            },
            Opts::CrateBuild { toolchain } => OptsView::CrateBuild { toolchain: toolchain@ },
            Opts::Report { kind } => OptsView::Report { kind: kind@ },
            Opts::SelfTest => OptsView::SelfTest,
        }
    }
}

/// The texts of a list of arguments.
pub open spec fn texts(args: Seq<String>) -> Seq<Seq<char>> {
    args.map_values(|s: String| s@)
}

/// The report that a kind keyword and the arguments after it ask for:
/// `comparison` takes the two toolchains to compare, `toolchain` takes one.
/// Arguments beyond those are passed over; any other keyword, and a missing
/// argument, gives `None`.
pub open spec fn report_kind_of(kind: Seq<char>, args: Seq<Seq<char>>) -> Option<ReportKindView> {
    if kind == "comparison"@ {
        if args.len() >= 2 {
            Some(ReportKindView::Comparison { toolchain_from: args[0], toolchain_to: args[1] })
        } else {
            None
        }
    } else if kind == "toolchain"@ {
        if args.len() >= 1 {
            Some(ReportKindView::Toolchain(args[0]))
        } else {
            None
        }
    } else {
        None
    }
}

/// The command that the arguments after the program's name ask for. The
/// first argument names the command and the following ones are its
/// operands in fixed order. Arguments beyond those are passed over; an
/// unknown or absent command, and a missing operand, gives `None`.
pub open spec fn command_of(args: Seq<Seq<char>>) -> Option<OptsView> {
    if args.len() == 0 {
        None
    } else if args[0] == "custom-build"@ {
        if args.len() >= 3 {
            Some(OptsView::CustomBuild { repo_url: args[1], commit_sha: args[2] })
        } else {
            None
        }
    } else if args[0] == "crate-build"@ {
        if args.len() >= 2 {
            Some(OptsView::CrateBuild { toolchain: args[1] })
        } else {
            None
        }
    } else if args[0] == "report"@ {
        if args.len() >= 2 {
            match report_kind_of(args[1], args.subrange(2, args.len() as int)) {
                Some(kind) => Some(OptsView::Report { kind }),
                None => None,
            }
        } else {
            None
        }
    } else if args[0] == "self-test"@ {
        Some(OptsView::SelfTest)
    } else {
        None
    }
}

/// Reads the kind of a report from its keyword and the arguments after it.
pub fn parse_report_kind(kind: &str, args: &[String]) -> (r: Result<ReportKind, Error>)
    ensures
        match r {
            Ok(k) => report_kind_of(kind@, texts(args@)) == Some(k@),
            Err(e) => report_kind_of(kind@, texts(args@)) is None && e is OptParse,
        },
{
    if same(kind, "comparison") {
        if args.len() < 2 {
            return Err(Error::OptParse);
        }
        Ok(
            ReportKind::Comparison {
                toolchain_from: args[0].clone(),
                toolchain_to: args[1].clone(),
            },
        )
    } else if same(kind, "toolchain") {
        if args.len() < 1 {
            return Err(Error::OptParse);
        }
        Ok(ReportKind::Toolchain(args[0].clone()))
    } else {
        Err(Error::OptParse)
    }
}

/// Reads the command from the arguments that follow the program's name.
pub fn parse_opts(args: &[String]) -> (r: Result<Opts, Error>)
    ensures
        match r {
            Ok(opts) => command_of(texts(args@)) == Some(opts@),
            Err(e) => command_of(texts(args@)) is None && e is OptParse,
        },
{
    if args.len() < 1 {
        return Err(Error::OptParse);
    }
    let command = args[0].as_str();
    if same(command, "custom-build") {
        if args.len() < 3 {
            return Err(Error::OptParse);
        }
        Ok(Opts::CustomBuild { repo_url: args[1].clone(), commit_sha: args[2].clone() })
    } else if same(command, "crate-build") {
        if args.len() < 2 {
            return Err(Error::OptParse);
        }
        Ok(Opts::CrateBuild { toolchain: args[1].clone() })
    } else if same(command, "report") {
        if args.len() < 2 {
            return Err(Error::OptParse);
        }
        let rest = slice_subrange(args, 2, args.len());
        assert(texts(rest@) =~= texts(args@).subrange(2, args@.len() as int));
        match parse_report_kind(args[1].as_str(), rest) {
            Ok(kind) => Ok(Opts::Report { kind }),
            Err(e) => Err(e),
        }
    } else if same(command, "self-test") {
        Ok(Opts::SelfTest)
    } else {
        Err(Error::OptParse)
    }
}

} // verus!
