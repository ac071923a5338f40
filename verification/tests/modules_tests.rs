use forza_rich_presence::modules::{standard_class_name, GameModule, FH4Module, FH5Module};

#[test]
fn fh4_module_names() {
    let m = FH4Module;
    assert_eq!(m.target_process_name(), "ForzaHorizon4.exe");
    assert_eq!(m.discord_client_id(), "1501483341164183562");
    assert_eq!(m.uwp_package_name(), "Microsoft.SunriseBaseGame_8wekyb3d8bbwe");
    assert_eq!(m.game_name(), "Forza Horizon 4");
    assert_eq!(m.logo_asset_key(), "logo");
}

#[test]
fn fh5_module_names() {
    let m = FH5Module;
    assert_eq!(m.target_process_name(), "ForzaHorizon5.exe");
    assert_eq!(m.discord_client_id(), "1501532618989113434");
    assert_eq!(m.uwp_package_name(), "Microsoft.624F8BCE84CBE_8wekyb3d8bbwe");
    assert_eq!(m.game_name(), "Forza Horizon 5");
    assert_eq!(m.logo_asset_key(), "logo");
}

#[test]
fn fh5_class_names() {
    let m = FH5Module;
    let expected = ["E", "D", "C", "B", "A", "S1", "S2", "X"];
    for (id, name) in expected.iter().enumerate() {
        assert_eq!(m.format_class(id as i32), *name);
    }
    assert_eq!(m.format_class(8), "Unknown");
    assert_eq!(m.format_class(-1), "Unknown");
}

#[test]
fn fh4_class_names() {
    let m = FH4Module;
    let expected = ["D", "C", "B", "A", "S1", "S2", "X"];
    for (id, name) in expected.iter().enumerate() {
        assert_eq!(m.format_class(id as i32), *name);
        assert_eq!(standard_class_name(id as i32), *name);
    }
    assert_eq!(m.format_class(7), "Unknown");
    assert_eq!(m.format_class(i32::MIN), "Unknown");
}
