//! The files that a .NET project consists of.

use vstd::prelude::*;

verus! {

/// The regular expression for the files that a .NET project consists of.
pub const DOTNET_PROJECT_FILES_PATTERN: &'static str =
    "^(global\\.json|Directory\\.Build\\.props|.*\\.(csproj|fsproj|vbproj|sln))$";

/// Whether a name is anything on one line, followed by `extension`.
pub open spec fn has_extension(name: Seq<char>, extension: Seq<char>) -> bool {
    let stem = name.len() - extension.len();
    &&& stem >= 0
    &&& name.skip(stem) == extension
    &&& !name.take(stem).contains('\n')
}

/// Whether a name is that of a file that a .NET project consists of.
pub open spec fn is_dotnet_project_file(name: Seq<char>) -> bool {
    ||| name == "global.json"@
    ||| name == "Directory.Build.props"@
    ||| has_extension(name, ".csproj"@)
    ||| has_extension(name, ".fsproj"@)
    ||| has_extension(name, ".vbproj"@)
    ||| has_extension(name, ".sln"@)
}

/// A compiled regular expression.
#[verifier::external_type_specification]
#[verifier::external_body]
pub struct ExRegex(regex::Regex);

/// The compiled pattern for the files that a .NET project consists of. Only
/// `compile` makes one, so it never holds another expression.
pub struct DotnetPattern {
    regex: regex::Regex,
}

/// Compiles the pattern with `regex::Regex::new`. The contract admits one pattern
/// only; that it is a valid expression, so that the call succeeds, is not proved.
/// What the compiled pattern is good for is stated at `is_match`.
#[verifier::external_body]
pub(crate) fn compile(pattern: &str) -> (compiled: DotnetPattern)
    requires
        pattern@ == DOTNET_PROJECT_FILES_PATTERN@,
{
    DotnetPattern { regex: regex::Regex::new(pattern).unwrap() }
}

/// Holds a text against the pattern with `regex::Regex::is_match`. The contract
/// claims that the pattern matches what its syntax says: `^` and `$` stand for
/// the ends of the whole text, `\.` for a dot, `.*` for any characters but line
/// feeds, and `|` separates alternatives.
#[verifier::external_body]
pub(crate) fn is_match(pattern: &DotnetPattern, text: &str) -> (matched: bool)
    ensures
        matched == is_dotnet_project_file(text@),
{
    pattern.regex.is_match(text)
}

/// Whether a name ends in `ending`, with nothing before it but characters of one
/// line.
pub open spec fn ends_in(name: Seq<char>, ending: Seq<char>) -> bool {
    exists|stem: Seq<char>| !stem.contains('\n') && name == #[trigger] (stem + ending)
}

/// Whether a .NET project consists of files of this name: it is one of two names,
/// or ends in one of four ways.
pub open spec fn belongs_to_dotnet(name: Seq<char>) -> bool {
    ||| name == "global.json"@
    ||| name == "Directory.Build.props"@
    ||| ends_in(name, ".csproj"@)
    ||| ends_in(name, ".fsproj"@)
    ||| ends_in(name, ".vbproj"@)
    ||| ends_in(name, ".sln"@)
}

/// The pattern stands for the names that belong to a .NET project, and for no
/// others.
pub proof fn dotnet_files_are_told_by_name(name: Seq<char>)
    ensures
        is_dotnet_project_file(name) <==> belongs_to_dotnet(name),
        DOTNET_PROJECT_FILES_PATTERN@
            == "^(global\\.json|Directory\\.Build\\.props|.*\\.(csproj|fsproj|vbproj|sln))$"@,
{
    lemma_extension(name, ".csproj"@);
    lemma_extension(name, ".fsproj"@);
    lemma_extension(name, ".vbproj"@);
    lemma_extension(name, ".sln"@);
}

proof fn lemma_extension(name: Seq<char>, extension: Seq<char>)
    ensures
        has_extension(name, extension) <==> ends_in(name, extension),
{
    let at = name.len() - extension.len();
    if has_extension(name, extension) {
        assert(name == name.take(at) + extension);
    }
    if ends_in(name, extension) {
        let stem = choose|stem: Seq<char>|
            !stem.contains('\n') && name == #[trigger] (stem + extension);
        assert(name.take(at) == stem);
        assert(name.skip(at) == extension);
    }
}

} // verus!
