use vstd::prelude::*;

use crate::text::{chars_of, decimal_nat, has_prefix, push_char, push_decimal, starts_with_chars};

verus! {

/// A directory entry under `/run/user`, as far as the choice of a runtime
/// directory needs it.
pub struct RuntimeDirEntry {
    pub name: String,
    pub is_dir: bool,
}

/// Whether every character is an ASCII digit (vacuously so for no character).
pub open spec fn all_ascii_digits(s: Seq<char>) -> bool {
    forall|i: int| 0 <= i < s.len() ==> '0' <= #[trigger] s[i] && s[i] <= '9'
}

/// The runtime directory guessed when `XDG_RUNTIME_DIR` is not set: the first
/// directory under `/run/user` named by digits only, else that of user 1000.
pub open spec fn spec_runtime_dir_fallback(entries: Seq<(Seq<char>, bool)>) -> Seq<char>
    decreases entries.len(),
{
    if entries.len() == 0 {
        "/run/user/1000"@
    } else if entries[0].1 && all_ascii_digits(entries[0].0) {
        "/run/user/"@ + entries[0].0
    } else {
        spec_runtime_dir_fallback(entries.drop_first())
    }
}

/// The entries as (name, is a directory) pairs.
pub open spec fn entries_view(entries: Seq<RuntimeDirEntry>) -> Seq<(Seq<char>, bool)> {
    entries.map_values(|e: RuntimeDirEntry| (e.name@, e.is_dir))
}

fn is_all_ascii_digits(s: &str) -> (r: bool)
    ensures
        r == all_ascii_digits(s@),
{
    let chars = chars_of(s);
    let mut i: usize = 0;
    while i < chars.len()
        invariant
            chars@ == s@,
            i <= chars@.len(),
            forall|k: int| 0 <= k < i ==> '0' <= #[trigger] chars@[k] && chars@[k] <= '9',
        decreases chars@.len() - i,
    {
        let c = chars[i];
        if !('0' <= c && c <= '9') {
            return false;
        }
        i = i + 1;
    }
    true
}

/// The runtime directory guessed from the entries of `/run/user`, in the
/// order they were listed.
pub fn runtime_dir_fallback(entries: &Vec<RuntimeDirEntry>) -> (r: String)
    ensures
        r@ == spec_runtime_dir_fallback(entries_view(entries@)),
{
    let ghost all = entries_view(entries@);
    let mut i: usize = 0;
    assert(all.skip(0) =~= all);
    while i < entries.len()
        invariant
            i <= entries@.len(),
            all == entries_view(entries@),
            spec_runtime_dir_fallback(all) == spec_runtime_dir_fallback(all.skip(i as int)),
        decreases entries@.len() - i,
    {
        let entry = &entries[i];
        proof {
            assert(all.skip(i as int)[0] == (entry.name@, entry.is_dir));
        }
        if entry.is_dir && is_all_ascii_digits(entry.name.as_str()) {
            let mut dir = String::from_str("/run/user/");
            dir.append(entry.name.as_str());
            return dir;
        }
        proof {
            assert(all.skip(i as int).drop_first() =~= all.skip(i + 1));
        }
        i = i + 1;
    }
    proof {
        assert(all.skip(i as int).len() == 0);
    }
    String::from_str("/run/user/1000")
}

/// `base` joined with `rel` as `Path::join` does on Unix: an absolute `rel`
/// replaces `base`, otherwise a separator is put between them unless `base` is
/// empty or already ends with one.
pub open spec fn spec_join_path(base: Seq<char>, rel: Seq<char>) -> Seq<char> {
    if rel.len() > 0 && rel[0] == '/' {
        rel
    } else if base.len() == 0 || base.last() == '/' {
        base + rel
    } else {
        base + seq!['/'] + rel
    }
}

/// `base` joined with `rel`.
pub fn join_path(base: &str, rel: &str) -> (r: String)
    ensures
        r@ == spec_join_path(base@, rel@),
{
    let rel_chars = chars_of(rel);
    let base_chars = chars_of(base);
    if rel_chars.len() > 0 && rel_chars[0] == '/' {
        return String::from_str(rel);
    }
    let mut out = String::from_str(base);
    if base_chars.len() > 0 && base_chars[base_chars.len() - 1] != '/' {
        push_char(&mut out, '/');
    }
    out.append(rel);
    out
}

/// How many subdirectories of each base directory are searched.
pub const SEARCH_SUBPATH_COUNT: usize = 7;

/// The subdirectories of a base directory where Discord and its repackagings
/// put their IPC sockets; the first is the base directory itself.
pub open spec fn spec_search_subpath(i: int) -> Seq<char> {
    if i == 0 {
        ""@
    } else if i == 1 {
        "app/com.discordapp.Discord"@
    } else if i == 2 {
        "app/dev.vencord.Vesktop"@
    } else if i == 3 {
        ".flatpak/com.discordapp.Discord/xdg-run"@
    } else if i == 4 {
        ".flatpak/dev.vencord.Vesktop/xdg-run"@
    } else if i == 5 {
        "snap.discord-canary"@
    } else {
        "snap.discord"@
    }
}

fn search_subpath(i: usize) -> (r: &'static str)
    requires
        i < SEARCH_SUBPATH_COUNT,
    ensures
        r@ == spec_search_subpath(i as int),
{
    match i {
        0 => "",
        1 => "app/com.discordapp.Discord",
        2 => "app/dev.vencord.Vesktop",
        3 => ".flatpak/com.discordapp.Discord/xdg-run",
        4 => ".flatpak/dev.vencord.Vesktop/xdg-run",
        5 => "snap.discord-canary",
        _ => "snap.discord",
    }
}

/// The `k`-th directory searched for sockets: the runtime directory and then
/// `/tmp`, each itself and then with each subpath.
pub open spec fn spec_search_dir(runtime_dir: Seq<char>, k: int) -> Seq<char> {
    let base = if k < SEARCH_SUBPATH_COUNT {
        runtime_dir
    } else {
        "/tmp"@
    };
    let sub = k % (SEARCH_SUBPATH_COUNT as int);
    if sub == 0 {
        base
    } else {
        spec_join_path(base, spec_search_subpath(sub))
    }
}

/// The directories searched for Discord IPC sockets, in order.
pub fn socket_search_dirs(runtime_dir: &str) -> (r: Vec<String>)
    ensures
        r@.len() == 2 * SEARCH_SUBPATH_COUNT,
        forall|k: int| 0 <= k < r@.len() ==> #[trigger] r@[k]@ == spec_search_dir(runtime_dir@, k),
{
    let mut out: Vec<String> = Vec::new();
    let mut b: usize = 0;
    while b < 2
        invariant
            b <= 2,
            out@.len() == b * SEARCH_SUBPATH_COUNT,
            forall|k: int|
                0 <= k < out@.len() ==> #[trigger] out@[k]@ == spec_search_dir(runtime_dir@, k),
        decreases 2 - b,
    {
        let base: &str = if b == 0 {
            runtime_dir
        } else {
            "/tmp"
        };
        let mut s: usize = 0;
        while s < SEARCH_SUBPATH_COUNT
            invariant
                b < 2,
                s <= SEARCH_SUBPATH_COUNT,
                base@ == (if b == 0 {
                    runtime_dir@
                } else {
                    "/tmp"@
                }),
                out@.len() == b * SEARCH_SUBPATH_COUNT + s,
                forall|k: int|
                    0 <= k < out@.len() ==> #[trigger] out@[k]@ == spec_search_dir(runtime_dir@, k),
            decreases SEARCH_SUBPATH_COUNT - s,
        {
            let dir = if s == 0 {
                String::from_str(base)
            } else {
                join_path(base, search_subpath(s))
            };
            proof {
                let k = (b * SEARCH_SUBPATH_COUNT + s) as int;
                assert(k % (SEARCH_SUBPATH_COUNT as int) == s as int);
                assert((k < SEARCH_SUBPATH_COUNT) == (b == 0));
                assert(dir@ == spec_search_dir(runtime_dir@, k));
            }
            out.push(dir);
            s = s + 1;
        }
        b = b + 1;
    }
    out
}

/// The directories searched, in order: the runtime directory and `/tmp`, each
/// first by itself and then with each of the Discord, Vesktop, Flatpak and
/// Snap subdirectories.
pub proof fn law_search_dirs(runtime_dir: Seq<char>)
    ensures
        spec_search_dir(runtime_dir, 0) == runtime_dir,
        spec_search_dir(runtime_dir, 1) == spec_join_path(runtime_dir, "app/com.discordapp.Discord"@),
        spec_search_dir(runtime_dir, 2) == spec_join_path(runtime_dir, "app/dev.vencord.Vesktop"@),
        spec_search_dir(runtime_dir, 3) == spec_join_path(
            runtime_dir,
            ".flatpak/com.discordapp.Discord/xdg-run"@,
        ),
        spec_search_dir(runtime_dir, 4) == spec_join_path(
            runtime_dir,
            ".flatpak/dev.vencord.Vesktop/xdg-run"@,
        ),
        spec_search_dir(runtime_dir, 5) == spec_join_path(runtime_dir, "snap.discord-canary"@),
        spec_search_dir(runtime_dir, 6) == spec_join_path(runtime_dir, "snap.discord"@),
        spec_search_dir(runtime_dir, 7) == "/tmp"@,
        spec_search_dir(runtime_dir, 8) == spec_join_path("/tmp"@, "app/com.discordapp.Discord"@),
        spec_search_dir(runtime_dir, 9) == spec_join_path("/tmp"@, "app/dev.vencord.Vesktop"@),
        spec_search_dir(runtime_dir, 10) == spec_join_path(
            "/tmp"@,
            ".flatpak/com.discordapp.Discord/xdg-run"@,
        ),
        spec_search_dir(runtime_dir, 11) == spec_join_path(
            "/tmp"@,
            ".flatpak/dev.vencord.Vesktop/xdg-run"@,
        ),
        spec_search_dir(runtime_dir, 12) == spec_join_path("/tmp"@, "snap.discord-canary"@),
        spec_search_dir(runtime_dir, 13) == spec_join_path("/tmp"@, "snap.discord"@),
{
}

/// The file name prefix of Discord IPC sockets.
pub open spec fn spec_ipc_prefix() -> Seq<char> {
    "discord-ipc-"@
}

/// The paths of the Discord IPC sockets among the names listed in `dir`, in
/// the order listed.
pub open spec fn spec_ipc_candidates(dir: Seq<char>, names: Seq<Seq<char>>) -> Seq<Seq<char>>
    decreases names.len(),
{
    if names.len() == 0 {
        Seq::empty()
    } else {
        let rest = spec_ipc_candidates(dir, names.drop_last());
        if has_prefix(names.last(), spec_ipc_prefix()) {
            rest.push(spec_join_path(dir, names.last()))
        } else {
            rest
        }
    }
}

/// The string views of a vector of strings.
pub open spec fn strings_view(v: Seq<String>) -> Seq<Seq<char>> {
    v.map_values(|s: String| s@)
}

/// The paths of the Discord IPC sockets among the file names listed in `dir`.
pub fn ipc_socket_candidates(dir: &str, names: &Vec<String>) -> (r: Vec<String>)
    ensures
        strings_view(r@) == spec_ipc_candidates(dir@, strings_view(names@)),
{
    let prefix = chars_of("discord-ipc-");
    let ghost all = strings_view(names@);
    let mut out: Vec<String> = Vec::new();
    let mut i: usize = 0;
    while i < names.len()
        invariant
            i <= names@.len(),
            prefix@ == spec_ipc_prefix(),
            all == strings_view(names@),
            strings_view(out@) == spec_ipc_candidates(dir@, all.take(i as int)),
        decreases names@.len() - i,
    {
        let name = &names[i];
        let name_chars = chars_of(name.as_str());
        proof {
            assert(all.take(i + 1).drop_last() =~= all.take(i as int));
            assert(all.take(i + 1).last() == name@);
        }
        if starts_with_chars(name_chars.as_slice(), prefix.as_slice()) {
            let path = join_path(dir, name.as_str());
            let ghost before = out@;
            out.push(path);
            proof {
                assert(strings_view(out@) =~= strings_view(before).push(path@));
            }
        }
        i = i + 1;
    }
    proof {
        assert(all.take(names@.len() as int) =~= all);
    }
    out
}

/// The file name under which a socket is linked for the client to find it.
pub open spec fn spec_link_name() -> Seq<char> {
    "discord-ipc-0"@
}

/// The temporary directory through which the `index`-th socket is reached.
pub open spec fn spec_socket_link_dir(index: nat) -> Seq<char> {
    "/tmp/forza_rpc_socket_link_"@ + decimal_nat(index)
}

/// The temporary directory through which the `index`-th socket is reached.
pub fn socket_link_dir(index: usize) -> (r: String)
    ensures
        r@ == spec_socket_link_dir(index as nat),
{
    let mut dir = String::from_str("/tmp/forza_rpc_socket_link_");
    push_decimal(&mut dir, index as u64);
    dir
}

/// The environment variables through which the IPC client finds its socket
/// directory, in the order it reads them.
pub fn ipc_env_keys() -> (r: Vec<&'static str>)
    ensures
        r@.len() == 4,
        r@[0]@ == "XDG_RUNTIME_DIR"@,
        r@[1]@ == "TMPDIR"@,
        r@[2]@ == "TMP"@,
        r@[3]@ == "TEMP"@,
{
    let mut keys: Vec<&'static str> = Vec::new();
    keys.push("XDG_RUNTIME_DIR");
    keys.push("TMPDIR");
    keys.push("TMP");
    keys.push("TEMP");
    keys
}

/// How one client is to be connected.
pub enum ConnectAttempt {
    /// Let the client look for its socket where it looks by default.
    Default,
    /// Link `socket` as `link_path` inside the fresh directory `link_dir`, and
    /// point the client's environment at `link_dir`.
    ViaLink { socket: String, link_dir: String, link_path: String },
}

/// The attempts for the sockets found: a default attempt when none was found,
/// else one attempt through a link per socket, in order.
pub open spec fn spec_connect_plan_ok(sockets: Seq<Seq<char>>, plan: Seq<ConnectAttempt>) -> bool {
    if sockets.len() == 0 {
        plan.len() == 1 && plan[0] is Default
    } else {
        &&& plan.len() == sockets.len()
        &&& forall|k: int|
            0 <= k < plan.len() ==> match #[trigger] plan[k] {
                ConnectAttempt::ViaLink { socket, link_dir, link_path } => {
                    &&& socket@ == sockets[k]
                    &&& link_dir@ == spec_socket_link_dir(k as nat)
                    &&& link_path@ == spec_join_path(link_dir@, spec_link_name())
                },
                ConnectAttempt::Default => false,
            }
    }
}

proof fn lemma_decimal_ends_in_digit(n: nat)
    ensures
        decimal_nat(n).len() > 0,
        decimal_nat(n).last() != '/',
    decreases n,
{
    if n >= 10 {
        lemma_decimal_ends_in_digit(n / 10);
    }
}

/// With no socket found, the one attempt is the client's default lookup; with
/// sockets found, every socket (the first included) gets its own attempt, in
/// order, through `/tmp/forza_rpc_socket_link_<k>/discord-ipc-0`, and no
/// attempt is a default one.
pub proof fn law_connect_plan(sockets: Seq<Seq<char>>, plan: Seq<ConnectAttempt>)
    requires
        spec_connect_plan_ok(sockets, plan),
    ensures
        sockets.len() == 0 ==> plan.len() == 1 && plan[0] is Default,
        sockets.len() > 0 ==> plan.len() == sockets.len(),
        sockets.len() > 0 ==> forall|k: int|
            0 <= k < plan.len() ==> match #[trigger] plan[k] {
                ConnectAttempt::ViaLink { socket, link_dir, link_path } => {
                    &&& socket@ == sockets[k]
                    &&& link_dir@ == "/tmp/forza_rpc_socket_link_"@ + decimal_nat(k as nat)
                    &&& link_path@ == link_dir@ + "/discord-ipc-0"@
                },
                ConnectAttempt::Default => false,
            },
{
    if sockets.len() > 0 {
        assert forall|k: int| 0 <= k < plan.len() implies match #[trigger] plan[k] {
            ConnectAttempt::ViaLink { socket, link_dir, link_path } => {
                &&& socket@ == sockets[k]
                &&& link_dir@ == "/tmp/forza_rpc_socket_link_"@ + decimal_nat(k as nat)
                &&& link_path@ == link_dir@ + "/discord-ipc-0"@
            },
            ConnectAttempt::Default => false,
        } by {
            match plan[k] {
                ConnectAttempt::ViaLink { socket, link_dir, link_path } => {
                    reveal_strlit("discord-ipc-0");
                    reveal_strlit("/discord-ipc-0");
                    lemma_decimal_ends_in_digit(k as nat);
                    let d = "/tmp/forza_rpc_socket_link_"@ + decimal_nat(k as nat);
                    assert(d.last() == decimal_nat(k as nat).last());
                    assert(d + seq!['/'] + "discord-ipc-0"@ =~= d + "/discord-ipc-0"@);
                },
                ConnectAttempt::Default => {},
            }
        }
    }
}

/// The connection attempts for the sockets found.
pub fn connect_plan(sockets: &Vec<String>) -> (r: Vec<ConnectAttempt>)
    ensures
        spec_connect_plan_ok(strings_view(sockets@), r@),
{
    let mut plan: Vec<ConnectAttempt> = Vec::new();
    if sockets.len() == 0 {
        plan.push(ConnectAttempt::Default);
        return plan;
    }
    let ghost all = strings_view(sockets@);
    let mut i: usize = 0;
    while i < sockets.len()
        invariant
            i <= sockets@.len(),
            all == strings_view(sockets@),
            plan@.len() == i,
            forall|k: int|
                0 <= k < i ==> match #[trigger] plan@[k] {
                    ConnectAttempt::ViaLink { socket, link_dir, link_path } => {
                        &&& socket@ == all[k]
                        &&& link_dir@ == spec_socket_link_dir(k as nat)
                        &&& link_path@ == spec_join_path(link_dir@, spec_link_name())
                    },
                    ConnectAttempt::Default => false,
                },
        decreases sockets@.len() - i,
    {
        let link_dir = socket_link_dir(i);
        let link_path = join_path(link_dir.as_str(), "discord-ipc-0");
        let socket = sockets[i].clone();
        plan.push(ConnectAttempt::ViaLink { socket, link_dir, link_path });
        i = i + 1;
    }
    plan
}

} // verus!
