use client::os::{
    os_name, os_release_step, os_version, parse_os_release, OperatingSystem, OsReleaseStep,
    OsVersionSource,
};
use client::text::{chars_of, lines, split_once, string_of, trim_matches};

#[test]
fn names_of_operating_systems() {
    assert_eq!(os_name(OperatingSystem::MacOs, "Wayland"), "macOS");
    assert_eq!(os_name(OperatingSystem::Linux, "Wayland"), "Linux Wayland");
    assert_eq!(os_name(OperatingSystem::Linux, "X11"), "Linux X11");
    assert_eq!(os_name(OperatingSystem::FreeBsd, "X11"), "FreeBSD X11");
    assert_eq!(os_name(OperatingSystem::Windows, ""), "Windows");
}

#[test]
fn places_of_the_description() {
    let paths = ["/etc/os-release", "/usr/lib/os-release", "/var/run/os-release"];
    for (attempt, expected) in paths.iter().enumerate() {
        match os_release_step(attempt, None) {
            OsReleaseStep::Read { path, next } => {
                assert_eq!(path, *expected);
                assert_eq!(next, attempt + 1);
            }
            OsReleaseStep::Done(_) => panic!("a place is left"),
        }
    }
    for attempt in [3, 4, usize::MAX] {
        assert!(matches!(
            os_release_step(attempt, None),
            OsReleaseStep::Done(OsVersionSource::OsRelease(None))
        ));
    }
    for attempt in [0, 1, 3, usize::MAX] {
        match os_release_step(attempt, Some("ID=x".to_string())) {
            OsReleaseStep::Done(OsVersionSource::OsRelease(read)) => {
                assert_eq!(read, Some("ID=x".to_string()));
            }
            _ => panic!("the description was read"),
        }
    }
}

fn search(files: [Option<&str>; 3]) -> (Option<String>, Vec<String>) {
    let mut paths: Vec<String> = Vec::new();
    let mut step = os_release_step(0, None);
    loop {
        step = match step {
            OsReleaseStep::Read { path, next } => {
                let read = files[paths.len()].map(String::from);
                paths.push(path);
                os_release_step(next, read)
            }
            OsReleaseStep::Done(OsVersionSource::OsRelease(read)) => return (read, paths),
            OsReleaseStep::Done(_) => panic!("another system"),
        };
    }
}

#[test]
fn first_description_that_can_be_read_counts() {
    let (read, paths) = search([Some("ID=a"), Some("ID=b"), None]);
    assert_eq!(read, Some("ID=a".to_string()));
    assert_eq!(paths, vec!["/etc/os-release"]);
    let (read, paths) = search([None, Some("ID=b"), Some("ID=c")]);
    assert_eq!(read, Some("ID=b".to_string()));
    assert_eq!(paths, vec!["/etc/os-release", "/usr/lib/os-release"]);
    let (read, paths) = search([None, None, Some("")]);
    assert_eq!(read, Some("".to_string()));
    assert_eq!(paths.len(), 3);
    let (read, paths) = search([None, None, None]);
    assert_eq!(read, None);
    assert_eq!(paths.len(), 3);
}

#[test]
fn version_out_of_a_description() {
    let content = "NAME=\"Ubuntu\"\nID=ubuntu\nID_LIKE=debian\nVERSION_ID=\"22.04\"\n";
    assert_eq!(parse_os_release(content), "ubuntu 22.04");
    assert_eq!(
        os_version(OsVersionSource::OsRelease(Some(content.to_string()))),
        "ubuntu 22.04"
    );
}

#[test]
fn last_assignment_in_a_description_counts() {
    assert_eq!(
        parse_os_release("ID=first\nVERSION_ID=1\nID=\"second\"\nOTHER=x"),
        "second 1"
    );
}

#[test]
fn keys_that_are_missing_are_unknown() {
    assert_eq!(parse_os_release(""), "unknown unknown");
    assert_eq!(parse_os_release("ID=arch\n"), "arch unknown");
    assert_eq!(parse_os_release("VERSION_ID=7"), "unknown 7");
    assert_eq!(parse_os_release(" ID=arch\nID =arch\nid=arch\nID"), "unknown unknown");
}

#[test]
fn values_keep_what_is_not_a_quote_at_an_end() {
    assert_eq!(parse_os_release("ID=\"\"a\"b\"\"\nVERSION_ID=1=2"), "a\"b 1=2");
    assert_eq!(parse_os_release("ID=\"\"\nVERSION_ID="), " ");
    assert_eq!(parse_os_release("ID=a\r\nVERSION_ID=b\r"), "a b\r");
}

#[test]
fn versions_from_system_calls() {
    assert_eq!(os_version(OsVersionSource::MacOs("14.5.0".to_string())), "14.5.0");
    assert_eq!(
        os_version(OsVersionSource::Windows(Some("10.0.22631".to_string()))),
        "10.0.22631"
    );
    assert_eq!(os_version(OsVersionSource::Windows(None)), "unknown");
    assert_eq!(os_version(OsVersionSource::OsRelease(None)), "unknown unknown");
}

#[test]
fn text_functions_agree_with_the_standard_library() {
    let texts = [
        "", "\n", "\r\n", "\r", "a", "a\n", "a\r\n", "a\r", "a\r\r\n", "a\n\nb", "a\r\nb\rc\n\r\n",
        "=", "a=", "=b", "a=b=c", "\"", "\"\"", "\"a\"", "a\"", "\"\"a\"b\"", "\u{e9}=\u{2603}\n",
    ];
    for text in texts {
        let chars = chars_of(text);
        assert_eq!(string_of(&chars), text);
        let ours: Vec<String> = lines(&chars).iter().map(string_of).collect();
        let theirs: Vec<String> = text.lines().map(String::from).collect();
        assert_eq!(ours, theirs);
        let ours = split_once(&chars, '=').map(|(a, b)| (string_of(&a), string_of(&b)));
        let theirs = text.split_once('=').map(|(a, b)| (a.to_string(), b.to_string()));
        assert_eq!(ours, theirs);
        assert_eq!(string_of(&trim_matches(&chars, '"')), text.trim_matches('"'));
    }
}
