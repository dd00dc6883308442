//! The name and the version of the operating system, as events report them.

use crate::text::{
    chars_of, find_is_first, last_line_needs_no_line_feed, line_ends_at_line_feed, lines,
    lines_spec, run_of, split_is_at_first, split_once, split_once_spec, string_of,
    text_without_separator_is_not_split, trim_matches, trim_matches_spec, trimming_leaves_core,
    views,
};
use vstd::prelude::*;
use vstd::string::StringExecFns;

verus! {

/// The operating systems that the editor runs on.
#[derive(Clone, Copy, Debug, PartialEq, Eq, Structural)]
pub enum OperatingSystem {
    MacOs,
    Linux,
    FreeBsd,
    Windows,
}

/// How the name of an operating system reads. Where the compositor varies, it
/// is part of the name.
pub open spec fn os_name_spec(os: OperatingSystem, compositor: Seq<char>) -> Seq<char> {
    match os {
        OperatingSystem::MacOs => "macOS"@,
        OperatingSystem::Linux => "Linux "@ + compositor,
        OperatingSystem::FreeBsd => "FreeBSD "@ + compositor,
        OperatingSystem::Windows => "Windows"@,
    }
}

/// Names the operating system. `compositor` is the one that the session appears
/// to run under; it matters on Linux and FreeBSD only.
pub fn os_name(os: OperatingSystem, compositor: &str) -> (name: String)
    ensures
        name@ == os_name_spec(os, compositor@),
{
    match os {
        OperatingSystem::MacOs => "macOS".to_string(),
        OperatingSystem::Linux => "Linux ".to_string().concat(compositor),
        OperatingSystem::FreeBsd => "FreeBSD ".to_string().concat(compositor),
        OperatingSystem::Windows => "Windows".to_string(),
    }
}

/// What a line assigns to `key`, without the quotes around it; nothing if the
/// line is not an assignment to `key`.
pub open spec fn assigned_value(line: Seq<char>, key: Seq<char>) -> Option<Seq<char>> {
    match split_once_spec(line, '=') {
        Some((name, value)) => if name == key {
            Some(trim_matches_spec(value, '"'))
        } else {
            None
        },
        None => None,
    }
}

/// The value of `key` after the given lines: the last one assigned, or
/// "unknown" where none is.
pub open spec fn os_release_field(lines: Seq<Seq<char>>, key: Seq<char>) -> Seq<char>
    decreases lines.len(),
{
    if lines.len() == 0 {
        "unknown"@
    } else {
        match assigned_value(lines.last(), key) {
            Some(value) => value,
            None => os_release_field(lines.drop_last(), key),
        }
    }
}

/// The version that a description of the system amounts to: its `ID` and its
/// `VERSION_ID`, with a space between them.
pub open spec fn os_release_version(content: Seq<char>) -> Seq<char> {
    os_release_field(lines_spec(content), "ID"@) + " "@ + os_release_field(
        lines_spec(content),
        "VERSION_ID"@,
    )
}

/// Reads the version out of the text of an `os-release` file.
pub fn parse_os_release(content: &str) -> (version: String)
    ensures
        version@ == os_release_version(content@),
{
    let all = lines(&chars_of(content));
    let ghost all_views = views(all@);
    let id_key = "ID".to_string();
    let version_key = "VERSION_ID".to_string();
    let mut name = "unknown".to_string();
    let mut version = "unknown".to_string();
    assert(all_views.take(0).len() == 0);
    proof {
        reveal_strlit("ID");
        reveal_strlit("VERSION_ID");
        assert("ID"@.len() != "VERSION_ID"@.len());
    }
    for i in 0..all.len()
        invariant
            all_views == views(all@),
            id_key@ == "ID"@,
            version_key@ == "VERSION_ID"@,
            "ID"@ != "VERSION_ID"@,
            name@ == os_release_field(all_views.take(i as int), "ID"@),
            version@ == os_release_field(all_views.take(i as int), "VERSION_ID"@),
    {
        proof {
            assert(all_views.take(i + 1).drop_last() == all_views.take(i as int));
            assert(all_views.take(i + 1).last() == all@[i as int]@);
        }
        match split_once(&all[i], '=') {
            Some((key, value)) => {
                let key = string_of(&key);
                if key == id_key {
                    name = string_of(&trim_matches(&value, '"'));
                } else if key == version_key {
                    version = string_of(&trim_matches(&value, '"'));
                }
            },
            None => {},
        }
    }
    assert(all_views.take(all_views.len() as int) == all_views);
    name.concat(" ").concat(version.as_str())
}

/// What the operating system says about its version.
pub enum OsVersionSource {
    /// The version that the system call of macOS gives.
    MacOs(String),
    /// The text of the first `os-release` file that could be read, on Linux and
    /// FreeBSD; nothing if none could.
    OsRelease(Option<String>),
    /// The version that the system call of Windows gives; nothing if the call
    /// failed.
    Windows(Option<String>),
}

/// What to do next to find the description of the system.
pub enum OsReleaseStep {
    /// Read the file at `path`. What was read, or that it could not be read, goes
    /// into the step of number `next`.
    Read { path: String, next: usize },
    /// It is known what the system says.
    Done(OsVersionSource),
}

/// Where the description of the system is looked for, in this order. There is
/// no place left after the third one.
pub open spec fn os_release_path(attempt: int) -> Option<Seq<char>> {
    if attempt == 0 {
        Some("/etc/os-release"@)
    } else if attempt == 1 {
        Some("/usr/lib/os-release"@)
    } else if attempt == 2 {
        Some("/var/run/os-release"@)
    } else {
        None
    }
}

/// `step` goes on after `attempt` places, with what the last of them held: what
/// was read ends the search, and so does the end of the places; else the next
/// place is read.
pub open spec fn os_release_stepped(
    attempt: int,
    read: Option<String>,
    step: OsReleaseStep,
) -> bool {
    match step {
        OsReleaseStep::Read { path, next } => {
            &&& read is None
            &&& os_release_path(attempt) == Some(path@)
            &&& next == attempt + 1
        },
        OsReleaseStep::Done(source) => {
            &&& read is Some || os_release_path(attempt) is None
            &&& source == OsVersionSource::OsRelease(read)
        },
    }
}

/// Goes on looking for the description of the system, after `attempt` places,
/// with what the last of them held; nothing if it could not be read, and at the
/// beginning. The first file that can be read counts.
pub fn os_release_step(attempt: usize, read: Option<String>) -> (step: OsReleaseStep)
    ensures
        os_release_stepped(attempt as int, read, step),
{
    if read.is_some() {
        return OsReleaseStep::Done(OsVersionSource::OsRelease(read));
    }
    let path = if attempt == 0 {
        "/etc/os-release"
    } else if attempt == 1 {
        "/usr/lib/os-release"
    } else if attempt == 2 {
        "/var/run/os-release"
    } else {
        return OsReleaseStep::Done(OsVersionSource::OsRelease(None));
    };
    OsReleaseStep::Read { path: path.to_string(), next: attempt + 1 }
}

/// How the version reads. A system that says nothing has an unknown version.
pub open spec fn os_version_spec(source: OsVersionSource) -> Seq<char> {
    match source {
        OsVersionSource::MacOs(version) => version@,
        OsVersionSource::OsRelease(Some(content)) => os_release_version(content@),
        OsVersionSource::OsRelease(None) => os_release_version(seq![]),
        OsVersionSource::Windows(Some(version)) => version@,
        OsVersionSource::Windows(None) => "unknown"@,
    }
}

/// Works out the version of the operating system.
pub fn os_version(source: OsVersionSource) -> (version: String)
    ensures
        version@ == os_version_spec(source),
{
    match source {
        OsVersionSource::MacOs(version) => version,
        OsVersionSource::OsRelease(content) => {
            match content {
                Some(content) => parse_os_release(content.as_str()),
                None => {
                    let content = "";
                    proof {
                        reveal_strlit("");
                        assert(content@ == Seq::<char>::empty());
                    }
                    parse_os_release(content)
                },
            }
        },
        OsVersionSource::Windows(version) => match version {
            Some(version) => version,
            None => "unknown".to_string(),
        },
    }
}

/// A key that no line assigns has an unknown value.
pub proof fn unassigned_field_is_unknown(lines: Seq<Seq<char>>, key: Seq<char>)
    requires
        forall|i: int| 0 <= i < lines.len() ==> assigned_value(#[trigger] lines[i], key) is None,
    ensures
        os_release_field(lines, key) == "unknown"@,
    decreases lines.len(),
{
    if lines.len() > 0 {
        assert forall|i: int| 0 <= i < lines.drop_last().len() implies assigned_value(
            #[trigger] lines.drop_last()[i],
            key,
        ) is None by {
            assert(lines.drop_last()[i] == lines[i]);
        }
        unassigned_field_is_unknown(lines.drop_last(), key);
    }
}

/// Of several assignments to one key the last one counts, whatever lines that
/// do not assign to the key follow it.
pub proof fn last_assignment_counts(lines: Seq<Seq<char>>, key: Seq<char>, at: int)
    requires
        0 <= at < lines.len(),
        assigned_value(lines[at], key) is Some,
        forall|i: int| at < i < lines.len() ==> assigned_value(#[trigger] lines[i], key) is None,
    ensures
        Some(os_release_field(lines, key)) == assigned_value(lines[at], key),
    decreases lines.len(),
{
    if at < lines.len() - 1 {
        assert(assigned_value(lines[lines.len() - 1], key) is None);
        assert forall|i: int| at < i < lines.drop_last().len() implies assigned_value(
            #[trigger] lines.drop_last()[i],
            key,
        ) is None by {
            assert(lines.drop_last()[i] == lines[i]);
        }
        last_assignment_counts(lines.drop_last(), key, at);
    }
}

/// A line that reads `key=value` assigns `value` to `key`, up to the quotes at
/// its ends.
pub proof fn assignment_is_read_back(key: Seq<char>, value: Seq<char>)
    requires
        !key.contains('='),
    ensures
        assigned_value(key + seq!['='] + value, key) == Some(trim_matches_spec(value, '"')),
{
    let line = key + seq!['='] + value;
    assert forall|i: int| 0 <= i < key.len() implies line[i] != '=' by {
        assert(line[i] == key[i]);
        assert(key.contains(key[i]));
    }
    find_is_first(line, '=', key.len() as int);
    assert(line.take(key.len() as int) == key);
    assert(line.skip(key.len() as int + 1) == value);
}

/// The text in the first place that can be read, from `attempt` on, where the
/// places hold `files`.
pub open spec fn first_readable(files: Seq<Option<String>>, attempt: int) -> Option<String>
    decreases files.len() - attempt,
{
    if attempt < 0 || attempt >= files.len() {
        None
    } else if files[attempt] is Some {
        files[attempt]
    } else {
        first_readable(files, attempt + 1)
    }
}

/// A search for the description of the system ends with the first of the three
/// files that can be read, and without a description if none can. It reads the
/// files in their order, and none behind the one that it ends with.
pub proof fn first_readable_file_counts(
    files: Seq<Option<String>>,
    steps: Seq<OsReleaseStep>,
)
    requires
        files.len() == 3,
        steps.len() > 0,
        os_release_stepped(0, None, steps[0]),
        forall|i: int|
            #![trigger steps[i]]
            0 <= i < steps.len() - 1 ==> (steps[i] matches OsReleaseStep::Read { next, .. }
                && os_release_stepped(next as int, files[i], steps[i + 1])),
        steps.last() is Done,
    ensures
        steps.last() == OsReleaseStep::Done(OsVersionSource::OsRelease(first_readable(files, 0))),
        forall|i: int|
            #![trigger steps[i]]
            0 <= i < steps.len() - 1 ==> {
                &&& steps[i] matches OsReleaseStep::Read { path, .. }
                &&& Some(path@) == os_release_path(i)
            },
        forall|i: int| 0 <= i < steps.len() - 2 ==> (#[trigger] files[i]) is None,
{
    reveal_with_fuel(first_readable, 4);
    let last = steps.len() - 1;
    assert(steps[0] is Read);
    if last > 1 {
        assert(steps[1] is Read);
    }
    if last > 2 {
        assert(steps[2] is Read);
    }
    if last > 3 {
        assert(steps[3] is Read);
        assert(false);
    }
}

/// A line whose text before its first equals sign is not `key` assigns nothing to
/// `key`, and neither does a line without an equals sign. So only `ID` lines decide
/// the name of the system and only `VERSION_ID` lines its version.
pub proof fn other_lines_do_not_assign(name: Seq<char>, value: Seq<char>, key: Seq<char>)
    requires
        !name.contains('='),
    ensures
        name != key ==> assigned_value(name + seq!['='] + value, key) is None,
        assigned_value(name, key) is None,
{
    split_is_at_first(name, '=', value);
    text_without_separator_is_not_split(name, '=');
}

/// Whether a line reads `key=`, and anything behind it.
pub open spec fn assigns(line: Seq<char>, key: Seq<char>) -> bool {
    exists|value: Seq<char>| line == #[trigger] (key + seq!['='] + value)
}

/// Whether a line reads `key=` and `value`, with any number of quotes on either
/// side of the value.
pub open spec fn sets(line: Seq<char>, key: Seq<char>, value: Seq<char>) -> bool {
    &&& value.len() > 0 ==> value[0] != '"' && value.last() != '"'
    &&& exists|front: nat, back: nat|
        line == key + seq!['='] + (#[trigger] run_of('"', front) + value + #[trigger] run_of(
            '"',
            back,
        ))
}

/// Whether `value` is what the lines say of `key`: what the last line that assigns
/// to it sets it to, and "unknown" where no line does.
pub open spec fn is_value_of(lines: Seq<Seq<char>>, key: Seq<char>, value: Seq<char>) -> bool {
    ||| value == "unknown"@ && forall|i: int|
        0 <= i < lines.len() ==> !assigns(#[trigger] lines[i], key)
    ||| exists|at: int|
        0 <= at < lines.len() && sets(#[trigger] lines[at], key, value) && forall|i: int|
            at < i < lines.len() ==> !assigns(#[trigger] lines[i], key)
}

/// A text that consists of these lines, each with a line feed behind it.
pub open spec fn joined_lines(lines: Seq<Seq<char>>) -> Seq<char>
    decreases lines.len(),
{
    if lines.len() == 0 {
        seq![]
    } else {
        lines[0] + seq!['\n'] + joined_lines(lines.drop_first())
    }
}

/// Whether a line has neither a line feed in it nor a carriage return at its end.
pub open spec fn is_plain_line(line: Seq<char>) -> bool {
    !line.contains('\n') && (line.len() > 0 ==> line.last() != '\r')
}

/// The lines of a text are those that it consists of.
pub proof fn joined_lines_are_split(lines: Seq<Seq<char>>)
    requires
        forall|i: int| 0 <= i < lines.len() ==> is_plain_line(#[trigger] lines[i]),
    ensures
        lines_spec(joined_lines(lines)) == lines,
    decreases lines.len(),
{
    if lines.len() > 0 {
        let rest = lines.drop_first();
        assert forall|i: int| 0 <= i < rest.len() implies is_plain_line(#[trigger] rest[i]) by {
            assert(rest[i] == lines[i + 1]);
        }
        joined_lines_are_split(rest);
        assert(is_plain_line(lines[0]));
        line_ends_at_line_feed(lines[0], joined_lines(rest));
        assert(seq![lines[0]] + rest == lines);
    } else {
        last_line_needs_no_line_feed(joined_lines(lines));
    }
}

/// A line assigns to a key exactly if it reads `key=` and anything behind it.
pub proof fn only_assignments_assign(line: Seq<char>, key: Seq<char>)
    requires
        !key.contains('='),
    ensures
        assigned_value(line, key) is Some <==> assigns(line, key),
{
    if assigns(line, key) {
        let value = choose|value: Seq<char>| line == #[trigger] (key + seq!['='] + value);
        split_is_at_first(key, '=', value);
    } else if line.contains('=') {
        let at = choose|at: int| 0 <= at < line.len() && line[at] == '=';
        lemma_name_of_line(line, at);
        let first = line.index_of_first('=')->0;
        let name = line.take(first);
        let value = line.skip(first + 1);
        split_is_at_first(name, '=', value);
        if name == key {
            assert(line == key + seq!['='] + value);
        }
    } else {
        text_without_separator_is_not_split(line, '=');
    }
}

proof fn lemma_name_of_line(line: Seq<char>, at: int)
    requires
        0 <= at < line.len(),
        line[at] == '=',
    ensures
        line.index_of_first('=') is Some,
        0 <= line.index_of_first('=')->0 < line.len(),
        !line.take(line.index_of_first('=')->0).contains('='),
        line == line.take(line.index_of_first('=')->0) + seq!['='] + line.skip(
            line.index_of_first('=')->0 + 1,
        ),
{
    assert(line.contains('='));
    line.index_of_first_ensures('=');
}

/// What the lines say of a key is what is read.
pub proof fn field_is_read(lines: Seq<Seq<char>>, key: Seq<char>, value: Seq<char>)
    requires
        !key.contains('='),
        is_value_of(lines, key, value),
    ensures
        os_release_field(lines, key) == value,
{
    assert forall|i: int| 0 <= i < lines.len() implies (assigned_value(
        #[trigger] lines[i],
        key,
    ) is Some <==> assigns(lines[i], key)) by {
        only_assignments_assign(lines[i], key);
    }
    if value == "unknown"@ && forall|i: int|
        0 <= i < lines.len() ==> !assigns(#[trigger] lines[i], key) {
        unassigned_field_is_unknown(lines, key);
    } else {
        let at = choose|at: int|
            0 <= at < lines.len() && sets(#[trigger] lines[at], key, value) && forall|i: int|
                at < i < lines.len() ==> !assigns(#[trigger] lines[i], key);
        let (front, back) = choose|front: nat, back: nat|
            lines[at] == key + seq!['='] + (#[trigger] run_of('"', front) + value
                + #[trigger] run_of('"', back));
        split_is_at_first(key, '=', run_of('"', front) + value + run_of('"', back));
        trimming_leaves_core(front, value, back, '"');
        last_assignment_counts(lines, key, at);
    }
}

/// The version that is read out of a text is what its lines say of `ID` and of
/// `VERSION_ID`, with a space between them. No other line matters.
pub proof fn version_is_read_from_lines(
    content: &str,
    lines: Seq<Seq<char>>,
    id: Seq<char>,
    release: Seq<char>,
    version: String,
)
    requires
        lines == lines_spec(content@),
        is_value_of(lines, "ID"@, id),
        is_value_of(lines, "VERSION_ID"@, release),
        call_ensures(parse_os_release, (content,), version),
    ensures
        version@ == id + " "@ + release,
{
    reveal_strlit("ID");
    reveal_strlit("VERSION_ID");
    field_is_read(lines, "ID"@, id);
    field_is_read(lines, "VERSION_ID"@, release);
}

/// On macOS and Windows the version is what the system call gives. Where the call
/// fails, and where no description can be read, it is unknown; a description that
/// can be read gives the version that is read out of it.
pub proof fn version_is_what_the_system_says(
    source: OsVersionSource,
    version: String,
    content: &str,
    parsed: String,
)
    requires
        call_ensures(os_version, (source,), version),
        call_ensures(parse_os_release, (content,), parsed),
    ensures
        source matches OsVersionSource::MacOs(given) ==> version@ == given@,
        source matches OsVersionSource::Windows(Some(given)) ==> version@ == given@,
        source == OsVersionSource::Windows(None) ==> version@ == "unknown"@,
        source == OsVersionSource::OsRelease(None) ==> version@ == "unknown"@ + " "@ + "unknown"@,
        source matches OsVersionSource::OsRelease(Some(read)) ==> (read@ == content@ ==> version@
            == parsed@),
{
    last_line_needs_no_line_feed(seq![]);
    unassigned_field_is_unknown(seq![], "ID"@);
    unassigned_field_is_unknown(seq![], "VERSION_ID"@);
}

/// The name of a system is its own name. On Linux and FreeBSD the compositor
/// follows it, after a space, as it is.
pub proof fn name_ends_in_compositor(os: OperatingSystem, compositor: &str, name: String)
    requires
        call_ensures(os_name, (os, compositor), name),
    ensures
        os == OperatingSystem::MacOs ==> name@ == "macOS"@,
        os == OperatingSystem::Windows ==> name@ == "Windows"@,
        os == OperatingSystem::Linux ==> name@ == "Linux "@ + compositor@,
        os == OperatingSystem::FreeBsd ==> name@ == "FreeBSD "@ + compositor@,
{
}

/// What was read ends the search, whatever it says. Until something is read, the
/// three places are read in turn.
pub proof fn search_reads_three_places(attempt: usize, read: Option<String>, step: OsReleaseStep)
    requires
        call_ensures(os_release_step, (attempt, read), step),
    ensures
        read is Some ==> step == OsReleaseStep::Done(OsVersionSource::OsRelease(read)),
        read is None && attempt >= 3 ==> step == OsReleaseStep::Done(
            OsVersionSource::OsRelease(None),
        ),
        read is None && attempt < 3 ==> {
            &&& step matches OsReleaseStep::Read { path, next }
            &&& next == attempt + 1
            &&& path@ == (if attempt == 0 {
                "/etc/os-release"@
            } else if attempt == 1 {
                "/usr/lib/os-release"@
            } else {
                "/var/run/os-release"@
            })
        },
{
}

} // verus!
