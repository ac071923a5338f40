use forza_rich_presence::monitor::{
    isolation_fix_result, loopback_exempt_command, process_found, status_update,
    tray_click_shows_settings, tray_menu_action, GameMonitor, MonitorEvent, TrayAction,
    PROCESS_POLL_SECS, TELEMETRY_CHANNEL_CAPACITY,
};

#[test]
fn monitor_reports_start_and_stop_once() {
    let mut m = GameMonitor::new();
    assert!(!m.is_game_running());
    assert_eq!(m.observe(false), MonitorEvent::Unchanged);
    assert_eq!(m.observe(true), MonitorEvent::GameStarted);
    assert!(m.is_game_running());
    assert_eq!(m.observe(true), MonitorEvent::Unchanged);
    assert_eq!(m.observe(false), MonitorEvent::GameStopped);
    assert_eq!(m.observe(false), MonitorEvent::Unchanged);
    assert_eq!(m.observe(true), MonitorEvent::GameStarted);
}

#[test]
fn process_lookup_is_exact() {
    let names = vec![String::from("explorer.exe"), String::from("ForzaHorizon4.exe")];
    assert!(process_found(&names, "ForzaHorizon4.exe"));
    assert!(!process_found(&names, "forzahorizon4.exe"));
    assert!(!process_found(&vec![], "ForzaHorizon4.exe"));
}

#[test]
fn status_updates_for_events() {
    let u = status_update(MonitorEvent::GameStarted, "Forza Horizon 4").unwrap();
    assert_eq!((u.status.as_str(), u.game.as_str(), u.details.as_str()), ("connected", "Forza Horizon 4", "Broadcasting presence..."));
    let u = status_update(MonitorEvent::GameStopped, "Forza Horizon 4").unwrap();
    assert_eq!((u.status.as_str(), u.game.as_str(), u.details.as_str()), ("disconnected", "", "Waiting for game..."));
    assert!(status_update(MonitorEvent::Unchanged, "Forza Horizon 4").is_none());
}

#[test]
fn tray_actions() {
    assert_eq!(tray_menu_action("quit"), TrayAction::Quit);
    assert_eq!(tray_menu_action("show"), TrayAction::ShowSettings);
    assert_eq!(tray_menu_action("Show"), TrayAction::Ignore);
    assert!(tray_click_shows_settings(true, true));
    assert!(!tray_click_shows_settings(true, false));
    assert!(!tray_click_shows_settings(false, true));
}

#[test]
fn loopback_command_and_result() {
    assert_eq!(
        loopback_exempt_command("Microsoft.SunriseBaseGame_8wekyb3d8bbwe"),
        "Start-Process -FilePath 'CheckNetIsolation.exe' -ArgumentList 'LoopbackExempt -a -n=Microsoft.SunriseBaseGame_8wekyb3d8bbwe' -Verb RunAs -WindowStyle Hidden"
    );
    assert_eq!(isolation_fix_result(true), Ok(String::from("Isolation fixed")));
    assert_eq!(isolation_fix_result(false), Err(String::from("Failed to execute command")));
    assert_eq!(PROCESS_POLL_SECS, 3);
    assert_eq!(TELEMETRY_CHANNEL_CAPACITY, 16);
}
