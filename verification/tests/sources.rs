use kc_overlay::source::{
    get_config_file_path, get_home_dir, get_legacy_launcher_dir, get_logs_path,
    get_lunar_logs_dir, get_minecraft_dir, lunar_get_newer_logs_path, newest_file, Environment,
    LogFile, MineClient, Platform,
};

fn linux() -> Environment {
    Environment { platform: Platform::Linux, user_dir: "/home/amy".to_string() }
}

fn windows() -> Environment {
    Environment { platform: Platform::Windows, user_dir: "C:\\Users\\Amy".to_string() }
}

fn file(name: &str, modified: u64) -> LogFile {
    LogFile { name: name.to_string(), modified }
}

#[test]
fn home_dir_by_system() {
    assert_eq!(get_home_dir(&linux()), "/home/amy");
    assert_eq!(get_home_dir(&windows()), "C:/Users/Amy/AppData/Roaming");
}

#[test]
fn linux_paths_keep_their_backslashes() {
    let env = Environment { platform: Platform::Linux, user_dir: "/home/a\\b".to_string() };
    assert_eq!(get_home_dir(&env), "/home/a\\b");
}

#[test]
fn minecraft_dir_and_settings_file() {
    assert_eq!(get_minecraft_dir(&linux()), "/home/amy/.minecraft");
    assert_eq!(get_minecraft_dir(&windows()), "C:/Users/Amy/AppData/Roaming/.minecraft");
    assert_eq!(get_config_file_path(&linux()), "/home/amy/.minecraft/kc_overlay_config.json");
    assert_eq!(
        get_config_file_path(&windows()),
        "C:/Users/Amy/AppData/Roaming/.minecraft/kc_overlay_config.json"
    );
}

#[test]
fn legacy_launcher_log() {
    assert_eq!(
        get_legacy_launcher_dir(&linux()),
        "/home/amy/.tlauncher/legacy/Minecraft/game/logs/latest.log"
    );
    assert_eq!(
        get_legacy_launcher_dir(&windows()),
        "C:/Users/Amy/AppData/Roaming/.tlauncher/legacy/Minecraft/game/logs/latest.log"
    );
}

#[test]
fn lunar_logs_lie_under_the_user_directory() {
    assert_eq!(get_lunar_logs_dir(&linux()), "/home/amy/.lunarclient/offline/multiver/logs");
    assert_eq!(get_lunar_logs_dir(&windows()), "C:/Users/Amy/.lunarclient/offline/multiver/logs");
}

#[test]
fn lunar_log_is_the_file_written_last() {
    let files = vec![file("a.log", 10), file("b.log", 30), file("c.log", 20)];
    assert_eq!(
        lunar_get_newer_logs_path(&linux(), &files),
        "/home/amy/.lunarclient/offline/multiver/logs/b.log"
    );
    assert_eq!(
        lunar_get_newer_logs_path(&linux(), &Vec::new()),
        "/home/amy/.lunarclient/offline/multiver/logs/latest.log"
    );
}

#[test]
fn newest_file_takes_the_first_of_equals() {
    assert_eq!(newest_file(&Vec::new()), None);
    assert_eq!(newest_file(&vec![file("a", 0)]), Some(0));
    assert_eq!(newest_file(&vec![file("a", 5), file("b", 5), file("c", 4)]), Some(0));
    assert_eq!(newest_file(&vec![file("a", 1), file("b", 9), file("c", 9)]), Some(1));
    assert_eq!(newest_file(&vec![file("a", 1), file("b", 2), file("c", u64::MAX)]), Some(2));
}

#[test]
fn logs_path_by_client() {
    let none = Vec::new();
    assert_eq!(
        get_logs_path(&MineClient::Default, &linux(), &none),
        "/home/amy/.minecraft/logs/latest.log"
    );
    assert_eq!(
        get_logs_path(&MineClient::Badlion, &linux(), &none),
        "/home/amy/.minecraft/logs/blclient/minecraft/latest.log"
    );
    assert_eq!(
        get_logs_path(&MineClient::Lunar, &linux(), &vec![file("x.log", 1)]),
        "/home/amy/.lunarclient/offline/multiver/logs/x.log"
    );
    assert_eq!(
        get_logs_path(&MineClient::LegacyLauncher, &linux(), &none),
        "/home/amy/.tlauncher/legacy/Minecraft/game/logs/latest.log"
    );
    assert_eq!(
        get_logs_path(&MineClient::Custom("D:\\logs\\my.log".to_string()), &windows(), &none),
        "D:\\logs\\my.log"
    );
    assert_eq!(
        get_logs_path(&MineClient::Silent, &windows(), &none),
        "C:/Users/Amy/AppData/Roaming/silentclient/logs/main.log"
    );
    assert_eq!(
        get_logs_path(&MineClient::Default, &windows(), &vec![file("x.log", 1)]),
        "C:/Users/Amy/AppData/Roaming/.minecraft/logs/latest.log"
    );
}

#[test]
fn client_names_and_numbers() {
    let clients = [
        (MineClient::Default, "Geral", 0),
        (MineClient::Badlion, "Badlion", 1),
        (MineClient::Lunar, "Lunar", 2),
        (MineClient::LegacyLauncher, "Legacy Launcher", 3),
        (MineClient::Custom("p".to_string()), "Personalizado", 4),
        (MineClient::Silent, "Silent Client", 5),
    ];
    for (client, name, number) in clients {
        assert_eq!(client.name(), name);
        assert_eq!(client.to_string(), name);
        assert_eq!(client.number(), number);
        assert!(MineClient::from_number(number, "p".to_string()).same_as(&client));
        assert!(client.duplicate().same_as(&client));
    }
}

#[test]
fn number_of_no_client_is_the_default_client() {
    for number in [-1, 6, 100, i64::MIN, i64::MAX] {
        assert!(MineClient::from_number(number, "p".to_string()).same_as(&MineClient::Default));
    }
    assert!(MineClient::default().same_as(&MineClient::Default));
}

#[test]
fn custom_clients_differ_by_path() {
    let a = MineClient::Custom("a".to_string());
    assert!(a.same_as(&MineClient::Custom("a".to_string())));
    assert!(!a.same_as(&MineClient::Custom("b".to_string())));
    assert!(!a.same_as(&MineClient::Silent));
    assert!(!MineClient::Lunar.same_as(&MineClient::Badlion));
}
