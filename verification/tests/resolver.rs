use shell_core::command::Command;
use shell_core::resolver::{
    join_path, permits_execution, BuiltinKind, Executable, FileStatus, Resolution, SearchPath,
    EXECUTE_BITS,
};
use std::collections::HashMap;
use std::path::Path;

fn search_path(dirs: &[&str]) -> SearchPath {
    SearchPath { dirs: dirs.iter().map(|dir| dir.to_string()).collect() }
}

fn file(mode: u32) -> FileStatus {
    FileStatus { regular: true, mode }
}

fn directory(mode: u32) -> FileStatus {
    FileStatus { regular: false, mode }
}

/// Runs a search to its end against `files`, and notes each path looked at.
fn run(
    mut resolution: Resolution,
    files: &HashMap<&str, FileStatus>,
    looked_at: &mut Vec<String>,
) -> Option<Executable> {
    loop {
        match resolution {
            Resolution::Pending(search) => {
                let candidate = search.candidate().to_string();
                let probe = files.get(candidate.as_str()).copied();
                looked_at.push(candidate);
                resolution = search.probed(probe);
            },
            Resolution::Found(executable) => return Some(executable),
            Resolution::NotFound(_) => return None,
        }
    }
}

fn find(name: &str, dirs: &[&str], files: &HashMap<&str, FileStatus>) -> Option<Executable> {
    run(Command::find_executable(name, &search_path(dirs)), files, &mut Vec::new())
}

fn executable(name: &str, path: &str) -> Executable {
    Executable { name: name.to_string(), path: path.to_string() }
}

#[test]
fn builtins_are_echo_type_exit() {
    for name in ["echo", "type", "exit"] {
        assert!(Command::is_builtin(name), "{}", name);
    }
}

#[test]
fn other_names_are_no_builtins() {
    for name in ["", "ls", "Echo", "ECHO", "echo ", " echo", "exit0", "typ", "types", "cd", "e"] {
        assert!(!Command::is_builtin(name), "{:?}", name);
    }
}

#[test]
fn classify_builtin_gives_each_kind() {
    assert_eq!(Command::classify_builtin("echo"), Some(BuiltinKind::Echo));
    assert_eq!(Command::classify_builtin("exit"), Some(BuiltinKind::Exit));
    assert_eq!(Command::classify_builtin("type"), Some(BuiltinKind::Type));
    assert_eq!(Command::classify_builtin("ls"), None);
    assert_eq!(Command::classify_builtin(""), None);
    assert_eq!(Command::classify_builtin("Type"), None);
}

#[test]
fn classify_builtin_agrees_with_is_builtin() {
    for name in ["echo", "type", "exit", "", "ls", "echoo", "EXIT", "type ", "cat"] {
        assert_eq!(Command::classify_builtin(name).is_some(), Command::is_builtin(name));
    }
}

#[test]
fn execute_bits_are_owner_group_other() {
    assert_eq!(EXECUTE_BITS, 0o111);
    assert_eq!(EXECUTE_BITS, 73);
}

#[test]
fn permits_execution_wants_a_regular_file_with_an_execute_bit() {
    assert!(permits_execution(Some(file(0o755))));
    assert!(permits_execution(Some(file(0o100))));
    assert!(permits_execution(Some(file(0o010))));
    assert!(permits_execution(Some(file(0o001))));
    assert!(permits_execution(Some(file(0o100755))));
    assert!(!permits_execution(Some(file(0o644))));
    assert!(!permits_execution(Some(file(0o666))));
    assert!(!permits_execution(Some(file(0))));
    assert!(!permits_execution(Some(file(0o4000))));
    assert!(!permits_execution(Some(directory(0o755))));
    assert!(!permits_execution(Some(directory(0o644))));
    assert!(!permits_execution(None));
}

#[test]
fn join_path_separates_with_one_slash() {
    assert_eq!(join_path("/usr/bin", "ls"), "/usr/bin/ls");
    assert_eq!(join_path("/usr/bin/", "ls"), "/usr/bin/ls");
    assert_eq!(join_path("/", "ls"), "/ls");
    assert_eq!(join_path("", "ls"), "ls");
    assert_eq!(join_path("bin", "ls"), "bin/ls");
    assert_eq!(join_path(".", "tool"), "./tool");
    assert_eq!(join_path("/opt", "sub/tool"), "/opt/sub/tool");
    assert_eq!(join_path("/opt", ""), "/opt/");
}

#[test]
fn join_path_lets_an_absolute_name_stand() {
    assert_eq!(join_path("/usr/bin", "/bin/ls"), "/bin/ls");
    assert_eq!(join_path("", "/bin/ls"), "/bin/ls");
}

#[test]
fn join_path_agrees_with_std_paths() {
    let dirs = ["", "/", "/usr/bin", "/usr/bin/", "bin", ".", "/opt/é"];
    let names = ["ls", "/bin/ls", "sub/tool", "a b", "é", ""];
    for dir in dirs {
        for name in names {
            let expected = Path::new(dir).join(name);
            assert_eq!(
                join_path(dir, name),
                expected.to_str().unwrap(),
                "{:?} {:?}",
                dir,
                name
            );
        }
    }
}

#[test]
fn search_path_of_nothing_is_empty() {
    assert_eq!(SearchPath::from_source(None, ':'), search_path(&[]));
    assert_eq!(SearchPath::from_source(Some(""), ':'), search_path(&[]));
}

#[test]
fn search_path_keeps_the_order_written() {
    assert_eq!(
        SearchPath::from_source(Some("/usr/local/bin:/usr/bin:/bin"), ':'),
        search_path(&["/usr/local/bin", "/usr/bin", "/bin"])
    );
    assert_eq!(SearchPath::from_source(Some("/bin"), ':'), search_path(&["/bin"]));
    assert_eq!(SearchPath::from_source(Some("/b::/a"), ':'), search_path(&["/b", "", "/a"]));
    assert_eq!(SearchPath::from_source(Some(":"), ':'), search_path(&["", ""]));
    assert_eq!(
        SearchPath::from_source(Some("C:\\bin;D:\\tools"), ';'),
        search_path(&["C:\\bin", "D:\\tools"])
    );
}

#[test]
fn find_executable_without_directories_finds_nothing() {
    let resolution = Command::find_executable("ls", &search_path(&[]));
    assert_eq!(resolution, Resolution::NotFound("ls".to_string()));
}

#[test]
fn find_executable_asks_about_the_first_directory_first() {
    match Command::find_executable("ls", &search_path(&["/usr/bin", "/bin"])) {
        Resolution::Pending(search) => assert_eq!(search.candidate(), "/usr/bin/ls"),
        other => panic!("{:?}", other),
    }
}

#[test]
fn find_executable_stops_at_the_first_match() {
    let files = HashMap::from([("/a/tool", file(0o755)), ("/b/tool", file(0o755))]);
    let mut looked_at = Vec::new();
    let found = run(
        Command::find_executable("tool", &search_path(&["/a", "/b", "/c"])),
        &files,
        &mut looked_at,
    );
    assert_eq!(found, Some(executable("tool", "/a/tool")));
    assert_eq!(looked_at, vec!["/a/tool".to_string()]);
}

#[test]
fn find_executable_follows_the_order_of_the_path() {
    let files = HashMap::from([("/a/tool", file(0o755)), ("/b/tool", file(0o700))]);
    assert_eq!(find("tool", &["/b", "/a"], &files), Some(executable("tool", "/b/tool")));
    assert_eq!(find("tool", &["/a", "/b"], &files), Some(executable("tool", "/a/tool")));
}

#[test]
fn find_executable_passes_over_what_cannot_be_run() {
    let files = HashMap::from([
        ("/a/tool", directory(0o755)),
        ("/b/tool", file(0o644)),
        ("/d/tool", file(0o010)),
        ("/e/tool", file(0o755)),
    ]);
    let mut looked_at = Vec::new();
    let found = run(
        Command::find_executable("tool", &search_path(&["/a", "/b", "/c", "/d", "/e"])),
        &files,
        &mut looked_at,
    );
    assert_eq!(found, Some(executable("tool", "/d/tool")));
    assert_eq!(looked_at, vec!["/a/tool", "/b/tool", "/c/tool", "/d/tool"]);
}

#[test]
fn find_executable_gives_up_after_the_last_directory() {
    let files = HashMap::from([("/a/tool", file(0o600)), ("/b/other", file(0o755))]);
    let mut looked_at = Vec::new();
    let resolution = Command::find_executable("tool", &search_path(&["/a", "/b"]));
    assert_eq!(run(resolution, &files, &mut looked_at), None);
    assert_eq!(looked_at, vec!["/a/tool", "/b/tool"]);
}

#[test]
fn find_executable_names_what_it_did_not_find() {
    let search = match Command::find_executable("tool", &search_path(&["/a"])) {
        Resolution::Pending(search) => search,
        other => panic!("{:?}", other),
    };
    assert_eq!(search.probed(None), Resolution::NotFound("tool".to_string()));
}

#[test]
fn find_executable_keeps_the_name_as_typed() {
    let files = HashMap::from([("/bin/ls", file(0o755))]);
    let found = find("/bin/ls", &["/usr/bin"], &files);
    assert_eq!(found, Some(executable("/bin/ls", "/bin/ls")));
}

#[test]
fn find_executable_twice_gives_the_same() {
    let files = HashMap::from([("/a/tool", file(0o644)), ("/b/tool", file(0o755))]);
    let first = find("tool", &["/a", "/b"], &files);
    let second = find("tool", &["/a", "/b"], &files);
    assert_eq!(first, Some(executable("tool", "/b/tool")));
    assert_eq!(first, second);
    assert_eq!(find("none", &["/a", "/b"], &files), find("none", &["/a", "/b"], &files));
}

#[test]
fn find_executable_ignores_files_it_does_not_look_at() {
    let before = HashMap::from([("/a/tool", file(0o755))]);
    let after = HashMap::from([
        ("/a/tool", file(0o755)),
        ("/a/other", file(0o755)),
        ("/z/tool", file(0o755)),
    ]);
    assert_eq!(find("tool", &["/a", "/b"], &before), find("tool", &["/a", "/b"], &after));
}
