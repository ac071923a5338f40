use forza_rich_presence::sockets::{
    connect_plan, ipc_env_keys, ipc_socket_candidates, join_path, runtime_dir_fallback,
    socket_link_dir, socket_search_dirs, ConnectAttempt, RuntimeDirEntry,
};
use std::path::Path;

fn entry(name: &str, is_dir: bool) -> RuntimeDirEntry {
    RuntimeDirEntry { name: String::from(name), is_dir }
}

#[test]
fn runtime_dir_fallback_picks_first_numeric_directory() {
    assert_eq!(runtime_dir_fallback(&vec![]), "/run/user/1000");
    let entries = vec![entry("gdm", true), entry("1001", false), entry("1002", true), entry("1003", true)];
    assert_eq!(runtime_dir_fallback(&entries), "/run/user/1002");
    assert_eq!(runtime_dir_fallback(&vec![entry("12a", true)]), "/run/user/1000");
}

#[test]
fn join_path_matches_std() {
    for (base, rel) in [
        ("/run/user/1000", "app/com.discordapp.Discord"),
        ("/tmp/", "snap.discord"),
        ("", "a"),
        ("/tmp", "/abs"),
        ("a", ""),
    ] {
        assert_eq!(join_path(base, rel), Path::new(base).join(rel).to_string_lossy(), "{:?}", (base, rel));
    }
}

#[test]
fn search_dirs_cover_both_bases() {
    let dirs = socket_search_dirs("/run/user/1000");
    assert_eq!(dirs.len(), 14);
    assert_eq!(dirs[0], "/run/user/1000");
    assert_eq!(dirs[1], "/run/user/1000/app/com.discordapp.Discord");
    assert_eq!(dirs[2], "/run/user/1000/app/dev.vencord.Vesktop");
    assert_eq!(dirs[3], "/run/user/1000/.flatpak/com.discordapp.Discord/xdg-run");
    assert_eq!(dirs[4], "/run/user/1000/.flatpak/dev.vencord.Vesktop/xdg-run");
    assert_eq!(dirs[5], "/run/user/1000/snap.discord-canary");
    assert_eq!(dirs[6], "/run/user/1000/snap.discord");
    assert_eq!(dirs[7], "/tmp");
    assert_eq!(dirs[13], "/tmp/snap.discord");
}

#[test]
fn candidates_keep_ipc_names_in_order() {
    let names = vec![
        String::from("discord-ipc-1"),
        String::from("other"),
        String::from("discord-ipc-0"),
        String::from("discord-ipc"),
    ];
    let found = ipc_socket_candidates("/run/user/1000", &names);
    assert_eq!(found, vec!["/run/user/1000/discord-ipc-1", "/run/user/1000/discord-ipc-0"]);
}

#[test]
fn link_dirs_and_env_keys() {
    assert_eq!(socket_link_dir(0), "/tmp/forza_rpc_socket_link_0");
    assert_eq!(socket_link_dir(12), "/tmp/forza_rpc_socket_link_12");
    assert_eq!(ipc_env_keys(), vec!["XDG_RUNTIME_DIR", "TMPDIR", "TMP", "TEMP"]);
}

#[test]
fn connect_plan_falls_back_to_default() {
    let plan = connect_plan(&vec![]);
    assert_eq!(plan.len(), 1);
    assert!(matches!(plan[0], ConnectAttempt::Default));
    let plan = connect_plan(&vec![String::from("/tmp/discord-ipc-0"), String::from("/run/user/1000/discord-ipc-3")]);
    assert_eq!(plan.len(), 2);
    match &plan[1] {
        ConnectAttempt::ViaLink { socket, link_dir, link_path } => {
            assert_eq!(socket, "/run/user/1000/discord-ipc-3");
            assert_eq!(link_dir, "/tmp/forza_rpc_socket_link_1");
            assert_eq!(link_path, "/tmp/forza_rpc_socket_link_1/discord-ipc-0");
        }
        ConnectAttempt::Default => panic!("expected a link"),
    }
}
