use forza_rich_presence::paths::{compare_paths, sort_and_dedup_paths};
use std::cmp::Ordering;
use std::path::PathBuf;

const SAMPLES: [&str; 16] = [
    "/tmp/discord-ipc-0",
    "/tmp//discord-ipc-0",
    "/tmp/./discord-ipc-0/",
    "/tmp/discord-ipc-1",
    "/run/user/1000/discord-ipc-0",
    "/run/user/1000/app/com.discordapp.Discord/discord-ipc-0",
    "/tmp/snap.discord/discord-ipc-0",
    "/tmp/snap.discord-canary/discord-ipc-0",
    "/tmp/a-b",
    "/tmp/a/b",
    "./x",
    "x",
    "../x",
    "",
    "/",
    "/tmp/ä",
];

fn std_order(a: &str, b: &str) -> i8 {
    match PathBuf::from(a).cmp(&PathBuf::from(b)) {
        Ordering::Less => -1,
        Ordering::Equal => 0,
        Ordering::Greater => 1,
    }
}

#[test]
fn compare_paths_matches_path_order() {
    for a in SAMPLES {
        for b in SAMPLES {
            assert_eq!(compare_paths(a, b), std_order(a, b), "{:?} vs {:?}", a, b);
        }
    }
}

#[test]
fn sort_and_dedup_matches_sort_then_dedup() {
    let input: Vec<String> = SAMPLES.iter().rev().map(|s| s.to_string()).chain(SAMPLES.iter().map(|s| s.to_string())).collect();
    let mut expected: Vec<PathBuf> = input.iter().map(PathBuf::from).collect();
    expected.sort();
    expected.dedup();
    let got = sort_and_dedup_paths(input);
    let got: Vec<PathBuf> = got.iter().map(PathBuf::from).collect();
    assert_eq!(got.len(), expected.len());
    for (g, e) in got.iter().zip(expected.iter()) {
        assert_eq!(g.as_os_str(), e.as_os_str());
    }
}

#[test]
fn sort_and_dedup_of_sockets() {
    let got = sort_and_dedup_paths(vec![
        String::from("/tmp/discord-ipc-1"),
        String::from("/run/user/1000/discord-ipc-0"),
        String::from("/tmp/discord-ipc-1"),
        String::from("/tmp/discord-ipc-0"),
    ]);
    assert_eq!(got, vec!["/run/user/1000/discord-ipc-0", "/tmp/discord-ipc-0", "/tmp/discord-ipc-1"]);
    assert!(sort_and_dedup_paths(vec![]).is_empty());
}
