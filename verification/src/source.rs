//! Where the log of each game client lies.

use crate::text::{push_char_of, to_chars};
use vstd::prelude::*;
use vstd::string::*;

verus! {

/// The systems that the clients run on.
#[derive(Debug, Clone, Copy, PartialEq, Eq, Structural)]
pub enum Platform {
    Linux,
    Windows,
}

/// What the paths depend on: the system, and the user's directory as the
/// system names it (`HOME` on Linux, `USERPROFILE` on Windows).
#[derive(Debug, Clone)]
pub struct Environment {
    pub platform: Platform,
    pub user_dir: String,
}

/// The game client whose log is followed.
#[derive(Debug, Clone)]
pub enum MineClient {
    Default,
    Badlion,
    Lunar,
    LegacyLauncher,
    /// Any client, by the path of its log.
    Custom(String),
    Silent,
}

/// A `MineClient` as plain values: each string as its characters.
pub enum MineClientView {
    Default,
    Badlion,
    Lunar,
    LegacyLauncher,
    Custom(Seq<char>),
    Silent,
}

impl View for MineClient {
    type V = MineClientView;

    open spec fn view(&self) -> MineClientView {
        match self {
            MineClient::Default => MineClientView::Default,
            MineClient::Badlion => MineClientView::Badlion,
            MineClient::Lunar => MineClientView::Lunar,
            MineClient::LegacyLauncher => MineClientView::LegacyLauncher,
            MineClient::Custom(path) => MineClientView::Custom(path@),
            MineClient::Silent => MineClientView::Silent,
        }
    }
}

impl Default for MineClient {
    fn default() -> (client: Self)
        ensures
            client@ == MineClientView::Default,
    {
        MineClient::Default
    }
}

impl MineClientView {
    /// The client's name as the settings show it.
    pub open spec fn label(self) -> Seq<char> {
        match self {
            MineClientView::Default => "Geral"@,
            MineClientView::Badlion => "Badlion"@,
            MineClientView::Lunar => "Lunar"@,
            MineClientView::LegacyLauncher => "Legacy Launcher"@,
            MineClientView::Custom(_) => "Personalizado"@,
            MineClientView::Silent => "Silent Client"@,
        }
    }

    /// The number under which the settings store the client.
    pub open spec fn number(self) -> int {
        match self {
            MineClientView::Default => 0,
            MineClientView::Badlion => 1,
            MineClientView::Lunar => 2,
            MineClientView::LegacyLauncher => 3,
            MineClientView::Custom(_) => 4,
            MineClientView::Silent => 5,
        }
    }

    /// The client stored under `number`, with `custom_path` for a custom one.
    /// A number of no client stands for the default client.
    pub open spec fn numbered(number: int, custom_path: Seq<char>) -> MineClientView {
        if number == 1 {
            MineClientView::Badlion
        } else if number == 2 {
            MineClientView::Lunar
        } else if number == 3 {
            MineClientView::LegacyLauncher
        } else if number == 4 {
            MineClientView::Custom(custom_path)
        } else if number == 5 {
            MineClientView::Silent
        } else {
            MineClientView::Default
        }
    }
}

/// A client is found again from its number and, for a custom one, its path.
pub proof fn lemma_numbered_inverts_number(client: MineClientView, other_path: Seq<char>)
    ensures
        0 <= client.number() <= 5,
        MineClientView::numbered(
            client.number(),
            match client {
                MineClientView::Custom(path) => path,
                _ => other_path,
            },
        ) == client,
{
}

impl MineClient {
    /// The client's name as the settings show it.
    pub fn name(&self) -> (name: &'static str)
        ensures
            name@ == self@.label(),
    {
        match self {
            MineClient::Default => "Geral",
            MineClient::Badlion => "Badlion",
            MineClient::Lunar => "Lunar",
            MineClient::LegacyLauncher => "Legacy Launcher",
            MineClient::Custom(_) => "Personalizado",
            MineClient::Silent => "Silent Client",
        }
    }

    /// The client's name as an owned string.
    pub fn to_string(&self) -> (name: String)
        ensures
            name@ == self@.label(),
    {
        String::from_str(self.name())
    }

    /// The number under which the settings store the client.
    pub fn number(&self) -> (number: i64)
        ensures
            number == self@.number(),
    {
        match self {
            MineClient::Default => 0,
            MineClient::Badlion => 1,
            MineClient::Lunar => 2,
            MineClient::LegacyLauncher => 3,
            MineClient::Custom(_) => 4,
            MineClient::Silent => 5,
        }
    }

    /// The client stored under `number`, with `custom_path` for a custom one.
    pub fn from_number(number: i64, custom_path: String) -> (client: Self)
        ensures
            client@ == MineClientView::numbered(number as int, custom_path@),
    {
        if number == 1 {
            MineClient::Badlion
        } else if number == 2 {
            MineClient::Lunar
        } else if number == 3 {
            MineClient::LegacyLauncher
        } else if number == 4 {
            MineClient::Custom(custom_path)
        } else if number == 5 {
            MineClient::Silent
        } else {
            MineClient::Default
        }
    }

    /// A copy of the client.
    pub fn duplicate(&self) -> (copy: Self)
        ensures
            copy@ == self@,
    {
        match self {
            MineClient::Default => MineClient::Default,
            MineClient::Badlion => MineClient::Badlion,
            MineClient::Lunar => MineClient::Lunar,
            MineClient::LegacyLauncher => MineClient::LegacyLauncher,
            MineClient::Custom(path) => MineClient::Custom(path.clone()),
            MineClient::Silent => MineClient::Silent,
        }
    }

    /// Whether two clients are the same, a custom one with the same path.
    pub fn same_as(&self, other: &MineClient) -> (same: bool)
        ensures
            same == (self@ == other@),
    {
        match (self, other) {
            (MineClient::Default, MineClient::Default) => true,
            (MineClient::Badlion, MineClient::Badlion) => true,
            (MineClient::Lunar, MineClient::Lunar) => true,
            (MineClient::LegacyLauncher, MineClient::LegacyLauncher) => true,
            (MineClient::Custom(a), MineClient::Custom(b)) => *a == *b,
            (MineClient::Silent, MineClient::Silent) => true,
            _ => false,
        }
    }
}

/// A file of a logs directory: its name, and when it was last written, in
/// milliseconds since the epoch.
#[derive(Debug, Clone)]
pub struct LogFile {
    pub name: String,
    pub modified: u64,
}

/// The path with every backslash turned into a slash.
pub open spec fn slashed(path: Seq<char>) -> Seq<char> {
    path.map_values(|c: char| if c == '\\' { '/' } else { c })
}

/// The user's directory, written with slashes.
pub open spec fn user_dir_of(platform: Platform, user_dir: Seq<char>) -> Seq<char> {
    match platform {
        Platform::Linux => user_dir,
        Platform::Windows => slashed(user_dir),
    }
}

/// The directory under which the programs of a user keep their data.
pub open spec fn home_dir(platform: Platform, user_dir: Seq<char>) -> Seq<char> {
    match platform {
        Platform::Linux => user_dir,
        Platform::Windows => slashed(user_dir) + "/AppData/Roaming"@,
    }
}

/// The directory of the game.
pub open spec fn minecraft_dir(platform: Platform, user_dir: Seq<char>) -> Seq<char> {
    home_dir(platform, user_dir) + "/.minecraft"@
}

/// The file of the overlay's settings.
pub open spec fn config_file_path(platform: Platform, user_dir: Seq<char>) -> Seq<char> {
    minecraft_dir(platform, user_dir) + "/kc_overlay_config.json"@
}

/// The log of the Legacy Launcher.
pub open spec fn legacy_launcher_log(platform: Platform, user_dir: Seq<char>) -> Seq<char> {
    home_dir(platform, user_dir) + "/.tlauncher/legacy/Minecraft/game/logs/latest.log"@
}

/// The directory in which the Lunar client keeps its logs.
pub open spec fn lunar_logs_dir(platform: Platform, user_dir: Seq<char>) -> Seq<char> {
    user_dir_of(platform, user_dir) + "/.lunarclient"@ + "/offline/multiver/logs"@
}

/// Whether `at` is the index of the file written last; of several written at
/// the same time, the one listed first.
pub open spec fn is_newest(modified: Seq<int>, at: int) -> bool {
    &&& 0 <= at < modified.len()
    &&& forall|j: int| 0 <= j < modified.len() ==> modified[j] <= modified[at]
    &&& forall|j: int| 0 <= j < at ==> modified[j] < modified[at]
}

/// The times at which the files of a listing were last written.
pub open spec fn modified_times(files: Seq<LogFile>) -> Seq<int> {
    files.map_values(|file: LogFile| file.modified as int)
}

/// The log of the Lunar client: of the files listed from its logs directory
/// the one written last; with none listed, the file `latest.log`.
pub open spec fn is_lunar_log(
    path: Seq<char>,
    platform: Platform,
    user_dir: Seq<char>,
    files: Seq<LogFile>,
) -> bool {
    if files.len() == 0 {
        path == lunar_logs_dir(platform, user_dir) + "/latest.log"@
    } else {
        exists|at: int|
            is_newest(modified_times(files), at) && path == lunar_logs_dir(platform, user_dir)
                + "/"@ + (#[trigger] files[at]).name@
    }
}

/// The log of a client whose place does not depend on a listing.
pub open spec fn fixed_log(client: MineClientView, platform: Platform, user_dir: Seq<char>) -> Seq<
    char,
> {
    match client {
        MineClientView::Default => minecraft_dir(platform, user_dir) + "/logs/latest.log"@,
        MineClientView::Badlion => minecraft_dir(platform, user_dir)
            + "/logs/blclient/minecraft/latest.log"@,
        MineClientView::LegacyLauncher => legacy_launcher_log(platform, user_dir),
        MineClientView::Custom(path) => path,
        MineClientView::Silent => home_dir(platform, user_dir) + "/silentclient/logs/main.log"@,
        MineClientView::Lunar => lunar_logs_dir(platform, user_dir) + "/latest.log"@,
    }
}

/// Whether `path` is the log of `client`.
pub open spec fn is_log_of(
    path: Seq<char>,
    client: MineClientView,
    platform: Platform,
    user_dir: Seq<char>,
    lunar_files: Seq<LogFile>,
) -> bool {
    match client {
        MineClientView::Lunar => is_lunar_log(path, platform, user_dir, lunar_files),
        _ => path == fixed_log(client, platform, user_dir),
    }
}

/// At most one index is that of the newest file.
pub proof fn lemma_newest_is_unique(modified: Seq<int>, a: int, b: int)
    requires
        is_newest(modified, a),
        is_newest(modified, b),
    ensures
        a == b,
{
    if a < b {
        assert(modified[a] < modified[b]);
        assert(modified[b] <= modified[a]);
    }
    if b < a {
        assert(modified[b] < modified[a]);
        assert(modified[a] <= modified[b]);
    }
}

fn with_slashes(path: &str) -> (r: String)
    ensures
        r@ == slashed(path@),
{
    let chars = to_chars(path);
    let mut out = String::new();
    let mut i: usize = 0;
    while i < chars.len()
        invariant
            i <= chars.len(),
            chars@ == path@,
            out@ == slashed(path@.take(i as int)),
        decreases chars.len() - i,
    {
        let ghost before = out@;
        if chars[i] == '\\' {
            proof {
                reveal_strlit("/");
            }
            out.append("/");
            assert(out@ =~= before.push('/'));
        } else {
            push_char_of(&mut out, path, i);
        }
        assert(out@ =~= slashed(path@.take(i + 1)));
        i += 1;
    }
    assert(path@.take(i as int) =~= path@);
    out
}

fn user_dir_slashed(env: &Environment) -> (r: String)
    ensures
        r@ == user_dir_of(env.platform, env.user_dir@),
{
    match env.platform {
        Platform::Linux => env.user_dir.clone(),
        Platform::Windows => with_slashes(env.user_dir.as_str()),
    }
}

/// The directory under which the programs of a user keep their data.
pub fn get_home_dir(env: &Environment) -> (dir: String)
    ensures
        dir@ == home_dir(env.platform, env.user_dir@),
{
    match env.platform {
        Platform::Linux => env.user_dir.clone(),
        Platform::Windows => with_slashes(env.user_dir.as_str()).concat("/AppData/Roaming"),
    }
}

/// The directory of the game.
pub fn get_minecraft_dir(env: &Environment) -> (dir: String)
    ensures
        dir@ == minecraft_dir(env.platform, env.user_dir@),
{
    get_home_dir(env).concat("/.minecraft")
}

/// The file of the overlay's settings.
pub fn get_config_file_path(env: &Environment) -> (path: String)
    ensures
        path@ == config_file_path(env.platform, env.user_dir@),
{
    get_minecraft_dir(env).concat("/kc_overlay_config.json")
}

/// The log of the Legacy Launcher.
pub fn get_legacy_launcher_dir(env: &Environment) -> (path: String)
    ensures
        path@ == legacy_launcher_log(env.platform, env.user_dir@),
{
    get_home_dir(env).concat("/.tlauncher/legacy/Minecraft/game/logs/latest.log")
}

/// The directory in which the Lunar client keeps its logs.
pub fn get_lunar_logs_dir(env: &Environment) -> (dir: String)
    ensures
        dir@ == lunar_logs_dir(env.platform, env.user_dir@),
{
    user_dir_slashed(env).concat("/.lunarclient").concat("/offline/multiver/logs")
}

/// The index of the file written last; of several written at the same time,
/// the one listed first. `None` for an empty listing.
pub fn newest_file(files: &Vec<LogFile>) -> (found: Option<usize>)
    ensures
        match found {
            Some(at) => is_newest(modified_times(files@), at as int),
            None => files@.len() == 0,
        },
{
    if files.len() == 0 {
        return None;
    }
    let mut best: usize = 0;
    let mut i: usize = 1;
    while i < files.len()
        invariant
            1 <= i <= files.len(),
            best < i,
            forall|j: int| 0 <= j < i ==> files@[j].modified <= files@[best as int].modified,
            forall|j: int| 0 <= j < best ==> files@[j].modified < files@[best as int].modified,
        decreases files.len() - i,
    {
        if files[i].modified > files[best].modified {
            best = i;
        }
        i += 1;
    }
    Some(best)
}

/// The log of the Lunar client: of the files listed from its logs directory
/// the one written last; with none listed, the file `latest.log`.
pub fn lunar_get_newer_logs_path(env: &Environment, files: &Vec<LogFile>) -> (path: String)
    ensures
        is_lunar_log(path@, env.platform, env.user_dir@, files@),
{
    let dir = get_lunar_logs_dir(env);
    match newest_file(files) {
        Some(at) => dir.concat("/").concat(files[at].name.as_str()),
        None => dir.concat("/latest.log"),
    }
}

/// The log of a client. For the Lunar client `lunar_files` lists the files
/// of its logs directory; for any other the listing is not looked at.
pub fn get_logs_path(client: &MineClient, env: &Environment, lunar_files: &Vec<LogFile>) -> (path:
    String)
    ensures
        is_log_of(path@, client@, env.platform, env.user_dir@, lunar_files@),
{
    match client {
        MineClient::Default => get_minecraft_dir(env).concat("/logs/latest.log"),
        MineClient::Badlion => get_minecraft_dir(env).concat("/logs/blclient/minecraft/latest.log"),
        MineClient::Lunar => lunar_get_newer_logs_path(env, lunar_files),
        MineClient::LegacyLauncher => get_legacy_launcher_dir(env),
        MineClient::Custom(path) => path.clone(),
        MineClient::Silent => get_home_dir(env).concat("/silentclient/logs/main.log"),
    }
}

} // verus!
