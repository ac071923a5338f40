use vstd::prelude::*;

verus! {

/// Seconds between two looks at the process list.
pub const PROCESS_POLL_SECS: u64 = 3;

/// How many telemetry samples may wait for the presence task.
pub const TELEMETRY_CHANNEL_CAPACITY: usize = 16;

/// What one look at the process list means for the session.
#[derive(Clone, Copy, Debug, PartialEq, Eq, Structural)]
pub enum MonitorEvent {
    /// The game appeared: connect to Discord and start listening for telemetry.
    GameStarted,
    /// The game went away: stop listening and disconnect from Discord.
    GameStopped,
    /// Nothing changed.
    Unchanged,
}

/// Whether the game is running, as far as the monitor has seen.
pub struct GameMonitor {
    is_game_running: bool,
}

impl View for GameMonitor {
    type V = bool;

    closed spec fn view(&self) -> bool {
        self.is_game_running
    }
}

/// The event that a look at the process list gives.
pub open spec fn spec_monitor_event(was_running: bool, found: bool) -> MonitorEvent {
    if found && !was_running {
        MonitorEvent::GameStarted
    } else if !found && was_running {
        MonitorEvent::GameStopped
    } else {
        MonitorEvent::Unchanged
    }
}

impl GameMonitor {
    /// A monitor that has not seen the game.
    pub fn new() -> (r: Self)
        ensures
            r@ == false,
    {
        GameMonitor { is_game_running: false }
    }

    /// Whether the game is running, as far as the monitor has seen.
    pub fn is_game_running(&self) -> (r: bool)
        ensures
            r == self@,
    {
        self.is_game_running
    }

    /// Takes in whether the game process was found in this look.
    pub fn observe(&mut self, found: bool) -> (event: MonitorEvent)
        ensures
            event == spec_monitor_event(old(self)@, found),
            final(self)@ == found,
    {
        if found && !self.is_game_running {
            self.is_game_running = true;
            MonitorEvent::GameStarted
        } else if !found && self.is_game_running {
            self.is_game_running = false;
            MonitorEvent::GameStopped
        } else {
            MonitorEvent::Unchanged
        }
    }
}

/// A start is reported only when the game appears and a stop only when it
/// goes away; a second look with the same answer reports nothing.
pub proof fn law_monitor_reports_changes_only(was_running: bool, found: bool)
    ensures
        (spec_monitor_event(was_running, found) == MonitorEvent::GameStarted) == (!was_running
            && found),
        (spec_monitor_event(was_running, found) == MonitorEvent::GameStopped) == (was_running
            && !found),
        spec_monitor_event(found, found) == MonitorEvent::Unchanged,
{
}

/// Whether `target` is among the process names.
pub open spec fn spec_process_found(names: Seq<Seq<char>>, target: Seq<char>) -> bool {
    exists|i: int| 0 <= i < names.len() && names[i] == target
}

/// Whether a process named `target` is among `names`.
pub fn process_found(names: &Vec<String>, target: &str) -> (r: bool)
    ensures
        r == spec_process_found(names@.map_values(|n: String| n@), target@),
        r == names@.map_values(|n: String| n@).contains(target@),
{
    let wanted = String::from_str(target);
    let ghost views = names@.map_values(|n: String| n@);
    let mut i: usize = 0;
    while i < names.len()
        invariant
            i <= names@.len(),
            wanted@ == target@,
            views == names@.map_values(|n: String| n@),
            forall|k: int| 0 <= k < i ==> views[k] != target@,
        decreases names@.len() - i,
    {
        if names[i] == wanted {
            assert(views[i as int] == target@);
            return true;
        }
        i = i + 1;
    }
    false
}

/// The game is found exactly when its name is anywhere in the list, the first
/// entry included.
pub proof fn law_process_found_is_membership(names: Seq<Seq<char>>, target: Seq<char>)
    ensures
        spec_process_found(names, target) == names.contains(target),
        names.len() > 0 && names[0] == target ==> spec_process_found(names, target),
        names.len() == 0 ==> !spec_process_found(names, target),
{
}

/// The status message that the settings window is sent.
pub struct StatusUpdate {
    pub status: String,
    pub game: String,
    pub details: String,
}

/// The status message for an event, if the event changes the status.
pub open spec fn spec_status_update(event: MonitorEvent, game_name: Seq<char>) -> Option<
    (Seq<char>, Seq<char>, Seq<char>),
> {
    match event {
        MonitorEvent::GameStarted => Some(("connected"@, game_name, "Broadcasting presence..."@)),
        MonitorEvent::GameStopped => Some(("disconnected"@, Seq::empty(), "Waiting for game..."@)),
        MonitorEvent::Unchanged => None,
    }
}

/// The status message for an event, if the event changes the status.
pub fn status_update(event: MonitorEvent, game_name: &str) -> (r: Option<StatusUpdate>)
    ensures
        match r {
            Some(u) => spec_status_update(event, game_name@) == Some((u.status@, u.game@, u.details@)),
            None => spec_status_update(event, game_name@) is None,
        },
{
    match event {
        MonitorEvent::GameStarted => Some(
            StatusUpdate {
                status: String::from_str("connected"),
                game: String::from_str(game_name),
                details: String::from_str("Broadcasting presence..."),
            },
        ),
        MonitorEvent::GameStopped => Some(
            StatusUpdate {
                status: String::from_str("disconnected"),
                game: String::new(),
                details: String::from_str("Waiting for game..."),
            },
        ),
        MonitorEvent::Unchanged => None,
    }
}

/// What a tray menu entry does.
#[derive(Clone, Copy, Debug, PartialEq, Eq, Structural)]
pub enum TrayAction {
    /// Quit the program.
    Quit,
    /// Show and focus the settings window.
    ShowSettings,
    /// Nothing.
    Ignore,
}

/// The id of the tray menu entry that quits.
pub open spec fn spec_quit_id() -> Seq<char> {
    "quit"@
}

/// The id of the tray menu entry that shows the settings.
pub open spec fn spec_show_id() -> Seq<char> {
    "show"@
}

/// What choosing the tray menu entry `id` does.
pub open spec fn spec_tray_menu_action(id: Seq<char>) -> TrayAction {
    if id == spec_quit_id() {
        TrayAction::Quit
    } else if id == spec_show_id() {
        TrayAction::ShowSettings
    } else {
        TrayAction::Ignore
    }
}

/// What choosing the tray menu entry `id` does.
pub fn tray_menu_action(id: &str) -> (r: TrayAction)
    ensures
        r == spec_tray_menu_action(id@),
{
    let id_string = String::from_str(id);
    if id_string == String::from_str("quit") {
        TrayAction::Quit
    } else if id_string == String::from_str("show") {
        TrayAction::ShowSettings
    } else {
        TrayAction::Ignore
    }
}

/// Whether a click on the tray icon shows the settings: a left button that
/// was released.
pub fn tray_click_shows_settings(left_button: bool, released: bool) -> (r: bool)
    ensures
        r == (left_button && released),
{
    left_button && released
}

/// The PowerShell command that exempts a Microsoft Store package from
/// loopback isolation, run elevated and hidden.
pub open spec fn spec_loopback_exempt_command(package: Seq<char>) -> Seq<char> {
    "Start-Process -FilePath 'CheckNetIsolation.exe' -ArgumentList 'LoopbackExempt -a -n="@
        + package + "' -Verb RunAs -WindowStyle Hidden"@
}

/// The PowerShell command that exempts `package` from loopback isolation.
pub fn loopback_exempt_command(package: &str) -> (r: String)
    ensures
        r@ == spec_loopback_exempt_command(package@),
{
    let mut command = String::from_str(
        "Start-Process -FilePath 'CheckNetIsolation.exe' -ArgumentList 'LoopbackExempt -a -n=",
    );
    command.append(package);
    command.append("' -Verb RunAs -WindowStyle Hidden");
    command
}

/// What the exemption command reports back, by whether it succeeded.
pub fn isolation_fix_result(success: bool) -> (r: Result<String, String>)
    ensures
        success ==> (r matches Ok(m) && m@ == "Isolation fixed"@),
        !success ==> (r matches Err(m) && m@ == "Failed to execute command"@),
{
    if success {
        Ok(String::from_str("Isolation fixed"))
    } else {
        Err(String::from_str("Failed to execute command"))
    }
}

} // verus!
