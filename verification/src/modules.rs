use vstd::prelude::*;

verus! {

/// What the rest of the library needs to know about a supported game.
pub trait GameModule: Send + Sync {
    spec fn spec_target_process_name(&self) -> Seq<char>;

    spec fn spec_discord_client_id(&self) -> Seq<char>;

    spec fn spec_uwp_package_name(&self) -> Seq<char>;

    spec fn spec_game_name(&self) -> Seq<char>;

    spec fn spec_logo_asset_key(&self) -> Seq<char>;

    spec fn spec_format_class(&self, class_id: i32) -> Seq<char>;

    /// The executable name of the game process.
    fn target_process_name(&self) -> (r: &'static str)
        ensures
            r@ == self.spec_target_process_name(),
    ;

    /// The Discord application that shows the presence of this game.
    fn discord_client_id(&self) -> (r: &'static str)
        ensures
            r@ == self.spec_discord_client_id(),
    ;

    /// The Microsoft Store package of the game.
    fn uwp_package_name(&self) -> (r: &'static str)
        ensures
            r@ == self.spec_uwp_package_name(),
    ;

    /// The display name of the game.
    fn game_name(&self) -> (r: &'static str)
        ensures
            r@ == self.spec_game_name(),
    ;

    /// The key of the large image asset of the game's Discord application.
    fn logo_asset_key(&self) -> (r: &'static str)
        ensures
            r@ == self.spec_logo_asset_key(),
    ;

    /// The name of the car class with the given telemetry class number.
    fn format_class(&self, class_id: i32) -> (r: String)
        ensures
            r@ == self.spec_format_class(class_id),
    ;
}

/// The asset key of the game logo in every game's Discord application.
pub open spec fn spec_default_logo_asset_key() -> Seq<char> {
    "logo"@
}

/// Class names as the telemetry numbers them from D upwards.
pub open spec fn spec_standard_class_name(class_id: i32) -> Seq<char> {
    if class_id == 0 {
        "D"@
    } else if class_id == 1 {
        "C"@
    } else if class_id == 2 {
        "B"@
    } else if class_id == 3 {
        "A"@
    } else if class_id == 4 {
        "S1"@
    } else if class_id == 5 {
        "S2"@
    } else if class_id == 6 {
        "X"@
    } else {
        "Unknown"@
    }
}

/// Class names as Forza Horizon 5 numbers them, from E upwards.
pub open spec fn spec_fh5_class_name(class_id: i32) -> Seq<char> {
    if class_id == 0 {
        "E"@
    } else if class_id == 1 {
        "D"@
    } else if class_id == 2 {
        "C"@
    } else if class_id == 3 {
        "B"@
    } else if class_id == 4 {
        "A"@
    } else if class_id == 5 {
        "S1"@
    } else if class_id == 6 {
        "S2"@
    } else if class_id == 7 {
        "X"@
    } else {
        "Unknown"@
    }
}

/// The class name for games that number classes from D upwards.
pub fn standard_class_name(class_id: i32) -> (r: String)
    ensures
        r@ == spec_standard_class_name(class_id),
{
    let name: &str = match class_id {
        0 => "D",
        1 => "C",
        2 => "B",
        3 => "A",
        4 => "S1",
        5 => "S2",
        6 => "X",
        _ => "Unknown",
    };
    String::from_str(name)
}

/// Forza Horizon 4.
pub struct FH4Module;

impl GameModule for FH4Module {
    open spec fn spec_target_process_name(&self) -> Seq<char> {
        "ForzaHorizon4.exe"@
    }

    open spec fn spec_discord_client_id(&self) -> Seq<char> {
        "1501483341164183562"@
    }

    open spec fn spec_uwp_package_name(&self) -> Seq<char> {
        "Microsoft.SunriseBaseGame_8wekyb3d8bbwe"@
    }

    open spec fn spec_game_name(&self) -> Seq<char> {
        "Forza Horizon 4"@
    }

    open spec fn spec_logo_asset_key(&self) -> Seq<char> {
        spec_default_logo_asset_key()
    }

    open spec fn spec_format_class(&self, class_id: i32) -> Seq<char> {
        spec_standard_class_name(class_id)
    }

    fn target_process_name(&self) -> (r: &'static str) {
        "ForzaHorizon4.exe"
    }

    fn discord_client_id(&self) -> (r: &'static str) {
        "1501483341164183562"
    }

    fn uwp_package_name(&self) -> (r: &'static str) {
        "Microsoft.SunriseBaseGame_8wekyb3d8bbwe"
    }

    fn game_name(&self) -> (r: &'static str) {
        "Forza Horizon 4"
    }

    fn logo_asset_key(&self) -> (r: &'static str) {
        "logo"
    }

    fn format_class(&self, class_id: i32) -> (r: String) {
        standard_class_name(class_id)
    }
}

/// Forza Horizon 5.
pub struct FH5Module;

impl GameModule for FH5Module {
    open spec fn spec_target_process_name(&self) -> Seq<char> {
        "ForzaHorizon5.exe"@
    }

    open spec fn spec_discord_client_id(&self) -> Seq<char> {
        "1501532618989113434"@
    }

    open spec fn spec_uwp_package_name(&self) -> Seq<char> {
        "Microsoft.624F8BCE84CBE_8wekyb3d8bbwe"@
    }

    open spec fn spec_game_name(&self) -> Seq<char> {
        "Forza Horizon 5"@
    }

    open spec fn spec_logo_asset_key(&self) -> Seq<char> {
        spec_default_logo_asset_key()
    }

    open spec fn spec_format_class(&self, class_id: i32) -> Seq<char> {
        spec_fh5_class_name(class_id)
    }

    fn target_process_name(&self) -> (r: &'static str) {
        "ForzaHorizon5.exe"
    }

    fn discord_client_id(&self) -> (r: &'static str) {
        "1501532618989113434"
    }

    fn uwp_package_name(&self) -> (r: &'static str) {
        "Microsoft.624F8BCE84CBE_8wekyb3d8bbwe"
    }

    fn game_name(&self) -> (r: &'static str) {
        "Forza Horizon 5"
    }

    fn logo_asset_key(&self) -> (r: &'static str) {
        "logo"
    }

    fn format_class(&self, class_id: i32) -> (r: String) {
        let name: &str = match class_id {
            0 => "E",
            1 => "D",
            2 => "C",
            3 => "B",
            4 => "A",
            5 => "S1",
            6 => "S2",
            7 => "X",
            _ => "Unknown",
        };
        String::from_str(name)
    }
}

} // verus!
