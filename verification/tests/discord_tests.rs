use discord_rich_presence::DiscordIpcClient;
use forza_rich_presence::car_database::CarDatabase;
use forza_rich_presence::discord::{
    accepted_xbl_state, shows_xbl_state, car_label, class_and_pi, display_name, fallback_status, DiscordService,
    Presence,
};
use forza_rich_presence::modules::{FH4Module, FH5Module};
use forza_rich_presence::telemetry::TelemetryData;

fn car(ordinal: i32, class: i32, pi: i32) -> TelemetryData {
    TelemetryData { car_ordinal: ordinal, car_class: class, car_pi: pi, speed_bits: 0, is_race_on: 1 }
}

fn connected_service() -> DiscordService {
    let mut service = DiscordService::with_start_time("1501483341164183562", 1_700_000_000);
    service.set_clients(vec![DiscordIpcClient::new("1501483341164183562").unwrap()]);
    service
}

fn database() -> CarDatabase {
    let mut db = CarDatabase::new();
    db.insert(3462, String::from("Koenigsegg Jesko"));
    db.insert(100, String::from("Lamborghini Countach LPI 800-4 Extra Long"));
    db
}

fn text(s: &Option<String>) -> Option<&str> {
    s.as_deref()
}

#[test]
fn xbl_states_that_are_errors_or_connection_states_are_rejected() {
    for s in [
        "Error: unauthorized",
        "  error: x",
        "API Error 500",
        "Network error",
        "Connected (No Activity)",
        " Connecting... ",
        "Disconnected",
        "Waiting for game...",
    ] {
        assert_eq!(accepted_xbl_state(s), None, "{:?}", s);
    }
}

#[test]
fn xbl_states_are_trimmed_when_accepted() {
    assert_eq!(accepted_xbl_state("  Forza Horizon 5 - Playing \n").as_deref(), Some("Forza Horizon 5 - Playing"));
    assert_eq!(accepted_xbl_state("connected (no activity)").as_deref(), Some("connected (no activity)"));
    assert_eq!(accepted_xbl_state("   ").as_deref(), Some(""));
    assert_eq!(accepted_xbl_state("Errors galore").as_deref(), Some("Errors galore"));
}

#[test]
fn fallback_status_per_game() {
    assert_eq!(fallback_status("Forza Horizon 4"), "Exploring Great Britain");
    assert_eq!(fallback_status("Forza Horizon 5"), "Exploring Mexico");
    assert_eq!(fallback_status("Forza Horizon 6"), "Exploring Japan");
}

#[test]
fn car_labels_and_display_names() {
    assert_eq!(car_label(None, 42), "Unknown Car (42)");
    assert_eq!(car_label(None, -7), "Unknown Car (-7)");
    assert_eq!(car_label(Some(String::from("Mazda")), 42), "Mazda");
    let long = String::from("Lamborghini Countach LPI 800-4 Extra Long");
    assert_eq!(display_name(&long), "Lamborghini Countach L...");
    assert_eq!(display_name(&long).chars().count(), 25);
    let exact = String::from("abcdefghijklmnopqrstuvwxy");
    assert_eq!(display_name(&exact), exact);
    let wide = String::from("ÄÄÄÄÄÄÄÄÄÄÄÄÄÄÄÄÄÄÄÄÄÄÄÄÄÄ");
    assert_eq!(display_name(&wide), "ÄÄÄÄÄÄÄÄÄÄÄÄÄÄÄÄÄÄÄÄÄÄ...");
    assert_eq!(class_and_pi(&String::from("S1"), 900), "S1 (900)");
}

#[test]
fn no_client_means_no_presence_and_nothing_remembered() {
    let mut service = DiscordService::with_start_time("id", 5);
    let db = database();
    let sample = car(3462, 5, 900);
    assert!(service.update_presence(Some(&sample), &db, &FH4Module, Some("Playing")).is_none());
    service.set_clients(vec![DiscordIpcClient::new("id").unwrap()]);
    let p = service.update_presence(None, &db, &FH4Module, None).unwrap();
    assert_eq!(text(&p.details), None);
    assert_eq!(text(&p.large_text), None);
}

#[test]
fn known_car_with_xbl_state() {
    let mut service = connected_service();
    let db = database();
    let sample = car(3462, 5, 900);
    let p: Presence = service
        .update_presence(Some(&sample), &db, &FH5Module, Some("  Playing Horizon Festival "))
        .unwrap();
    assert_eq!(text(&p.details), Some("Playing Horizon Festival"));
    assert_eq!(text(&p.state), Some("Koenigsegg Jesko | S1 (900)"));
    assert_eq!(p.start_timestamp, 1_700_000_000);
    assert_eq!(p.large_image, "logo");
    assert_eq!(text(&p.large_text), Some("Playing Horizon Festival"));
    assert_eq!(text(&p.small_image), Some("class_s1"));
    assert_eq!(text(&p.small_text), Some("Koenigsegg Jesko | S1 (900)"));
}

#[test]
fn known_car_without_xbl_state_uses_game_fallback() {
    let mut service = connected_service();
    let db = database();
    let sample = car(100, 3, 801);
    let p = service.update_presence(Some(&sample), &db, &FH4Module, None).unwrap();
    assert_eq!(text(&p.details), Some("Exploring Great Britain"));
    assert_eq!(text(&p.state), Some("Lamborghini Countach L... | A (801)"));
    assert_eq!(text(&p.large_text), Some("Exploring Great Britain"));
    assert_eq!(text(&p.small_image), Some("class_a"));
    assert_eq!(text(&p.small_text), Some("Lamborghini Countach LPI 800-4 Extra Long | A (801)"));
}

#[test]
fn unknown_car_hides_car_details() {
    let mut service = connected_service();
    let db = database();
    let sample = car(9999, 2, 650);
    let p = service.update_presence(Some(&sample), &db, &FH5Module, None).unwrap();
    assert_eq!(text(&p.details), Some("Exploring Mexico"));
    assert_eq!(text(&p.state), None);
    assert_eq!(text(&p.small_image), None);
    assert_eq!(text(&p.small_text), None);
    assert_eq!(text(&p.large_text), Some("Exploring Mexico"));
}

#[test]
fn nothing_known_shows_only_the_logo() {
    let mut service = connected_service();
    let db = database();
    let p = service.update_presence(None, &db, &FH4Module, Some("Error: 401")).unwrap();
    assert_eq!(text(&p.details), None);
    assert_eq!(text(&p.state), None);
    assert_eq!(p.large_image, "logo");
    assert_eq!(text(&p.large_text), None);
    assert_eq!(text(&p.small_image), None);
}

#[test]
fn xbl_state_without_car() {
    let mut service = connected_service();
    let db = database();
    let p = service.update_presence(None, &db, &FH4Module, Some("Home")).unwrap();
    assert_eq!(text(&p.details), Some("Home"));
    assert_eq!(text(&p.state), None);
    assert_eq!(text(&p.large_text), Some("Home"));
}

#[test]
fn remembered_car_and_state_survive_empty_updates() {
    let mut service = connected_service();
    let db = database();
    let sample = car(3462, 5, 900);
    let first = service.update_presence(Some(&sample), &db, &FH4Module, Some("Racing")).unwrap();
    let idle = car(0, 0, 0);
    let second = service
        .update_presence(Some(&idle), &db, &FH4Module, Some("Network error: timeout"))
        .unwrap();
    let third = service.update_presence(None, &db, &FH4Module, None).unwrap();
    for p in [&second, &third] {
        assert_eq!(p.details, first.details);
        assert_eq!(p.state, first.state);
        assert_eq!(p.small_image, first.small_image);
        assert_eq!(p.small_text, first.small_text);
        assert_eq!(p.large_text, first.large_text);
    }
}

#[test]
fn blank_xbl_state_is_remembered_but_not_shown_as_details() {
    let mut service = connected_service();
    let db = database();
    let sample = car(3462, 0, 500);
    let p = service.update_presence(Some(&sample), &db, &FH4Module, Some("   ")).unwrap();
    assert_eq!(text(&p.details), None);
    assert_eq!(text(&p.state), Some("Koenigsegg Jesko | D (500)"));
    assert_eq!(text(&p.large_text), Some(""));
}

#[test]
fn service_bookkeeping() {
    let mut service = DiscordService::new("abc").unwrap();
    assert_eq!(service.client_id(), "abc");
    assert!(service.start_time() > 1_600_000_000);
    assert!(!service.has_clients());
    service.set_clients(vec![DiscordIpcClient::new("abc").unwrap(), DiscordIpcClient::new("abc").unwrap()]);
    assert!(service.has_clients());
    let taken = service.take_clients();
    assert_eq!(taken.len(), 2);
    assert!(!service.has_clients());
    assert!(service.take_clients().is_empty());
    assert_eq!(service.client_id(), "abc");
    let db = CarDatabase::new();
    let sample = car(3462, 5, 900);
    assert!(service.update_presence(Some(&sample), &db, &FH4Module, Some("Racing")).is_none());
}

#[test]
fn accepted_state_reported_again_is_accepted_unchanged() {
    for s in ["  Racing in Mexico ", "\u{3000}Home\u{a0}", "Photo Mode"] {
        let once = accepted_xbl_state(s).unwrap();
        assert_eq!(accepted_xbl_state(&once), Some(once.clone()));
    }
}

#[test]
fn xbl_decision_on_trimmed_and_lowered_text() {
    assert!(!shows_xbl_state("ERROR: x", "error: x"));
    assert!(!shows_xbl_state("Api Error", "api error"));
    assert!(!shows_xbl_state("Network error 7", "network error 7"));
    assert!(!shows_xbl_state("Connecting...", "connecting..."));
    assert!(!shows_xbl_state("Disconnected", "disconnected"));
    assert!(!shows_xbl_state("Waiting for game...", "waiting for game..."));
    assert!(!shows_xbl_state("Connected (No Activity)", "connected (no activity)"));
    assert!(shows_xbl_state("connected (no activity)", "connected (no activity)"));
    assert!(shows_xbl_state("Errors", "errors"));
    assert!(shows_xbl_state("", ""));
}
