use vstd::prelude::*;

use crate::car_database::CarDatabase;
use crate::modules::GameModule;
use crate::telemetry::TelemetryData;
use crate::text::{
    chars_of, decimal_int, has_prefix, lowercase, push_decimal_i32, starts_with_chars,
    string_from_chars, to_lowercase, trim, trim_chars, law_trim_idempotent,
};

verus! {

/// The length above which a car name is shortened for display.
pub const DISPLAY_NAME_MAX_CHARS: usize = 25;

/// How many characters of a shortened car name are kept before the ellipsis.
pub const DISPLAY_NAME_KEPT_CHARS: usize = 22;

/// `discord_rich_presence::DiscordIpcClient`, a connection to a Discord
/// client; the library only holds such connections and learns nothing of what
/// is inside them.
#[verifier::external_type_specification]
#[verifier::external_body]
pub struct ExDiscordIpcClient(discord_rich_presence::DiscordIpcClient);

/// The Rich Presence activity to show, with plain strings for each field.
pub struct Presence {
    /// The top line.
    pub details: Option<String>,
    /// The bottom line.
    pub state: Option<String>,
    /// When the session started, in seconds since the Unix epoch.
    pub start_timestamp: i64,
    pub large_image: String,
    pub large_text: Option<String>,
    pub small_image: Option<String>,
    pub small_text: Option<String>,
}

/// The fields of a [`Presence`] as character sequences.
pub struct PresenceView {
    pub details: Option<Seq<char>>,
    pub state: Option<Seq<char>>,
    pub start_timestamp: i64,
    pub large_image: Seq<char>,
    pub large_text: Option<Seq<char>>,
    pub small_image: Option<Seq<char>>,
    pub small_text: Option<Seq<char>>,
}

impl View for Presence {
    type V = PresenceView;

    open spec fn view(&self) -> PresenceView {
        PresenceView {
            details: self.details.deep_view(),
            state: self.state.deep_view(),
            start_timestamp: self.start_timestamp,
            large_image: self.large_image@,
            large_text: self.large_text.deep_view(),
            small_image: self.small_image.deep_view(),
            small_text: self.small_text.deep_view(),
        }
    }
}

/// Whether a trimmed Xbox Live status is worth showing, given also its
/// lowercase form: not when it is an error (by its lowercase prefix) or one of
/// the connection states (exactly).
pub open spec fn spec_shows_xbl_state(trimmed: Seq<char>, lowered: Seq<char>) -> bool {
    !(has_prefix(lowered, "error:"@) || has_prefix(lowered, "api error"@) || has_prefix(
        lowered,
        "network error"@,
    ) || trimmed == "Connected (No Activity)"@ || trimmed == "Connecting..."@ || trimmed
        == "Disconnected"@ || trimmed == "Waiting for game..."@)
}

/// The Xbox Live status worth showing: the reported text without surrounding
/// white space, unless it is an error or one of the connection states.
pub open spec fn spec_accepted_xbl_state(reported: Seq<char>) -> Option<Seq<char>> {
    let t = trim(reported);
    if spec_shows_xbl_state(t, lowercase(t)) {
        Some(t)
    } else {
        None
    }
}

/// The Xbox Live status to show after a report: an accepted report replaces
/// the remembered one, anything else leaves it.
pub open spec fn spec_next_xbl_state(remembered: Option<Seq<char>>, reported: Option<Seq<char>>) -> Option<
    Seq<char>,
> {
    match reported {
        Some(s) => match spec_accepted_xbl_state(s) {
            Some(t) => Some(t),
            None => remembered,
        },
        None => remembered,
    }
}

/// The car data to show after a sample: a sample with a car replaces the
/// remembered data, anything else leaves it.
pub open spec fn spec_next_car_data(
    remembered: Option<TelemetryData>,
    sample: Option<TelemetryData>,
) -> Option<TelemetryData> {
    match sample {
        Some(d) => if d.car_ordinal != 0 {
            Some(d)
        } else {
            remembered
        },
        None => remembered,
    }
}

/// What is shown for a game while its car is known but Xbox Live says nothing.
pub open spec fn spec_fallback_status(game_name: Seq<char>) -> Seq<char> {
    if game_name == "Forza Horizon 4"@ {
        "Exploring Great Britain"@
    } else if game_name == "Forza Horizon 5"@ {
        "Exploring Mexico"@
    } else {
        "Exploring Japan"@
    }
}

/// The status line: the Xbox Live state, else the game's fallback when a car
/// is known, else nothing.
pub open spec fn spec_status_line(
    xbl: Option<Seq<char>>,
    has_car: bool,
    game_name: Seq<char>,
) -> Option<Seq<char>> {
    match xbl {
        Some(x) => Some(x),
        None => if has_car {
            Some(spec_fallback_status(game_name))
        } else {
            None
        },
    }
}

/// The car's name, or a placeholder with its ordinal when the database does
/// not know it.
pub open spec fn spec_car_label(name: Option<Seq<char>>, ordinal: i32) -> Seq<char> {
    match name {
        Some(n) => n,
        None => "Unknown Car ("@ + decimal_int(ordinal as int) + ")"@,
    }
}

/// The car name as displayed: names longer than the limit are cut and end
/// with an ellipsis.
pub open spec fn spec_display_name(name: Seq<char>) -> Seq<char> {
    if name.len() > DISPLAY_NAME_MAX_CHARS {
        name.take(DISPLAY_NAME_KEPT_CHARS as int) + "..."@
    } else {
        name
    }
}

/// `"<class> (<pi>)"`.
pub open spec fn spec_class_and_pi(class_name: Seq<char>, pi: i32) -> Seq<char> {
    class_name + " ("@ + decimal_int(pi as int) + ")"@
}

/// `Some(s)` unless `s` is empty.
pub open spec fn non_empty(s: Seq<char>) -> Option<Seq<char>> {
    if s.len() > 0 {
        Some(s)
    } else {
        None
    }
}

/// The presence for the given car (with what the database and the game module
/// say of it) and status line.
pub open spec fn spec_presence(
    start_timestamp: i64,
    car: Option<TelemetryData>,
    status: Option<Seq<char>>,
    car_name: Option<Seq<char>>,
    class_name: Seq<char>,
    logo: Seq<char>,
) -> PresenceView {
    match car {
        Some(d) => {
            let known = car_name is Some;
            let label = spec_car_label(car_name, d.car_ordinal);
            let class_pi = spec_class_and_pi(class_name, d.car_pi);
            let details = match status {
                Some(x) => x,
                None => if known {
                    label
                } else {
                    Seq::empty()
                },
            };
            let state = if !known {
                Seq::empty()
            } else if status is Some {
                spec_display_name(label) + " | "@ + class_pi
            } else {
                class_pi
            };
            PresenceView {
                details: non_empty(details),
                state: non_empty(state),
                start_timestamp,
                large_image: logo,
                large_text: status,
                small_image: if known {
                    Some("class_"@ + lowercase(class_name))
                } else {
                    None
                },
                small_text: if known {
                    Some(label + " | "@ + class_pi)
                } else {
                    None
                },
            }
        },
        None => PresenceView {
            details: match status {
                Some(x) => non_empty(x),
                None => None,
            },
            state: None,
            start_timestamp,
            large_image: logo,
            large_text: status,
            small_image: None,
            small_text: None,
        },
    }
}

/// The presence that a game module and a car database give for the car and
/// Xbox Live state to show.
pub open spec fn spec_presence_for<M: GameModule>(
    start_timestamp: i64,
    car: Option<TelemetryData>,
    xbl: Option<Seq<char>>,
    db: &CarDatabase,
    module: &M,
) -> PresenceView {
    let status = spec_status_line(xbl, car is Some, module.spec_game_name());
    match car {
        Some(d) => spec_presence(
            start_timestamp,
            car,
            status,
            db.spec_car_name(d.car_ordinal),
            module.spec_format_class(d.car_class),
            module.spec_logo_asset_key(),
        ),
        None => spec_presence(
            start_timestamp,
            car,
            status,
            None,
            Seq::empty(),
            module.spec_logo_asset_key(),
        ),
    }
}

/// The sample carried by an optional reference.
pub open spec fn sample_of(data: Option<&TelemetryData>) -> Option<TelemetryData> {
    match data {
        Some(d) => Some(*d),
        None => None,
    }
}

/// The text carried by an optional string slice.
pub open spec fn text_of(s: Option<&str>) -> Option<Seq<char>> {
    match s {
        Some(t) => Some(t@),
        None => None,
    }
}

fn str_equals(a: &String, b: &str) -> (r: bool)
    ensures
        r == (a@ == b@),
{
    let other = String::from_str(b);
    *a == other
}

/// Whether a trimmed Xbox Live status, with `lowered` its lowercase form, is
/// worth showing.
pub fn shows_xbl_state(trimmed: &str, lowered: &str) -> (r: bool)
    ensures
        r == spec_shows_xbl_state(trimmed@, lowered@),
{
    let lower_chars = chars_of(lowered);
    let error_prefix = chars_of("error:");
    let api_prefix = chars_of("api error");
    let network_prefix = chars_of("network error");
    let trimmed_string = String::from_str(trimmed);
    !(starts_with_chars(lower_chars.as_slice(), error_prefix.as_slice()) || starts_with_chars(
        lower_chars.as_slice(),
        api_prefix.as_slice(),
    ) || starts_with_chars(lower_chars.as_slice(), network_prefix.as_slice()) || str_equals(
        &trimmed_string,
        "Connected (No Activity)",
    ) || str_equals(&trimmed_string, "Connecting...") || str_equals(
        &trimmed_string,
        "Disconnected",
    ) || str_equals(&trimmed_string, "Waiting for game..."))
}

/// The Xbox Live status worth showing, if the report is one.
pub fn accepted_xbl_state(reported: &str) -> (r: Option<String>)
    ensures
        r.deep_view() == spec_accepted_xbl_state(reported@),
{
    let chars = chars_of(reported);
    let trimmed_chars = trim_chars(chars.as_slice());
    let trimmed = string_from_chars(trimmed_chars.as_slice());
    let lower = to_lowercase(trimmed.as_str());
    if shows_xbl_state(trimmed.as_str(), lower.as_str()) {
        Some(trimmed)
    } else {
        None
    }
}

/// What is shown for a game while its car is known but Xbox Live says nothing.
pub fn fallback_status(game_name: &str) -> (r: &'static str)
    ensures
        r@ == spec_fallback_status(game_name@),
{
    let name = String::from_str(game_name);
    if str_equals(&name, "Forza Horizon 4") {
        "Exploring Great Britain"
    } else if str_equals(&name, "Forza Horizon 5") {
        "Exploring Mexico"
    } else {
        "Exploring Japan"
    }
}

/// The car's name, or a placeholder with its ordinal.
pub fn car_label(name: Option<String>, ordinal: i32) -> (r: String)
    ensures
        r@ == spec_car_label(name.deep_view(), ordinal),
{
    match name {
        Some(n) => n,
        None => {
            let mut s = String::from_str("Unknown Car (");
            push_decimal_i32(&mut s, ordinal);
            s.append(")");
            s
        },
    }
}

/// The car name as displayed.
pub fn display_name(name: &String) -> (r: String)
    ensures
        r@ == spec_display_name(name@),
{
    let chars = chars_of(name.as_str());
    if chars.len() > DISPLAY_NAME_MAX_CHARS {
        let mut kept: Vec<char> = Vec::new();
        let mut i: usize = 0;
        while i < DISPLAY_NAME_KEPT_CHARS
            invariant
                chars@ == name@,
                chars@.len() > DISPLAY_NAME_MAX_CHARS,
                i <= DISPLAY_NAME_KEPT_CHARS,
                kept@ == chars@.take(i as int),
            decreases DISPLAY_NAME_KEPT_CHARS - i,
        {
            kept.push(chars[i]);
            assert(chars@.take(i as int).push(chars@[i as int]) =~= chars@.take(i + 1));
            i = i + 1;
        }
        let mut s = string_from_chars(kept.as_slice());
        s.append("...");
        s
    } else {
        name.clone()
    }
}

/// `"<class> (<pi>)"`.
pub fn class_and_pi(class_name: &String, pi: i32) -> (r: String)
    ensures
        r@ == spec_class_and_pi(class_name@, pi),
{
    let mut s = class_name.clone();
    s.append(" (");
    push_decimal_i32(&mut s, pi);
    s.append(")");
    assert(s@ =~= spec_class_and_pi(class_name@, pi));
    s
}

fn non_empty_string(s: String) -> (r: Option<String>)
    ensures
        r.deep_view() == non_empty(s@),
{
    if s.as_str().is_empty() {
        None
    } else {
        Some(s)
    }
}

fn clone_text(s: &Option<String>) -> (r: Option<String>)
    ensures
        r.deep_view() == s.deep_view(),
{
    match s {
        Some(t) => Some(t.clone()),
        None => None,
    }
}

/// Builds the presence for a car and status line.
pub fn build_presence(
    start_timestamp: i64,
    car: Option<TelemetryData>,
    status: Option<String>,
    car_name: Option<String>,
    class_name: String,
    logo: &str,
) -> (r: Presence)
    ensures
        r@ == spec_presence(
            start_timestamp,
            car,
            status.deep_view(),
            car_name.deep_view(),
            class_name@,
            logo@,
        ),
{
    let large_image = String::from_str(logo);
    match car {
        Some(d) => {
            let known = car_name.is_some();
            let label = car_label(car_name, d.car_ordinal);
            let class_pi = class_and_pi(&class_name, d.car_pi);
            let details = match &status {
                Some(x) => x.clone(),
                None => if known {
                    label.clone()
                } else {
                    String::new()
                },
            };
            let state = if !known {
                String::new()
            } else if status.is_some() {
                let mut line = display_name(&label);
                line.append(" | ");
                line.append(class_pi.as_str());
                line
            } else {
                class_pi.clone()
            };
            let small_image = if known {
                let mut key = String::from_str("class_");
                let lower = to_lowercase(class_name.as_str());
                key.append(lower.as_str());
                Some(key)
            } else {
                None
            };
            let small_text = if known {
                let mut hover = label.clone();
                hover.append(" | ");
                hover.append(class_pi.as_str());
                Some(hover)
            } else {
                None
            };
            let large_text = clone_text(&status);
            let r = Presence {
                details: non_empty_string(details),
                state: non_empty_string(state),
                start_timestamp,
                large_image,
                large_text,
                small_image,
                small_text,
            };
            assert(r@ =~= spec_presence(
                start_timestamp,
                car,
                status.deep_view(),
                car_name.deep_view(),
                class_name@,
                logo@,
            ));
            r
        },
        None => {
            let details = match &status {
                Some(x) => non_empty_string(x.clone()),
                None => None,
            };
            let large_text = clone_text(&status);
            Presence {
                details,
                state: None,
                start_timestamp,
                large_image,
                large_text,
                small_image: None,
                small_text: None,
            }
        },
    }
}

/// `std::time::SystemTime`, a reading of the system clock; the library only
/// carries such readings through.
#[verifier::external_type_specification]
#[verifier::external_body]
pub struct ExSystemTime(std::time::SystemTime);

/// `SystemTime::now`: the current reading of the system clock. Nothing is
/// claimed of it: it depends on the clock.
#[verifier::external_body]
fn system_time_now() -> (r: std::time::SystemTime) {
    std::time::SystemTime::now()
}

/// `SystemTime::duration_since(UNIX_EPOCH)`: the time elapsed since the Unix
/// epoch, or `None` when the reading lies before it. Nothing is claimed of
/// which: the reading is opaque here.
#[verifier::external_body]
fn elapsed_since_epoch(t: &std::time::SystemTime) -> (r: Option<std::time::Duration>) {
    t.duration_since(std::time::UNIX_EPOCH).ok()
}

/// `Duration::as_secs`: the whole seconds of a duration. Nothing is claimed
/// of the value: the duration is opaque here.
#[verifier::external_body]
fn whole_seconds(d: &std::time::Duration) -> (r: u64) {
    d.as_secs()
}

/// The Discord side of the presence: the connected IPC clients, the
/// application they speak for, when the session started, and the last car and
/// Xbox Live state worth showing.
pub struct DiscordService {
    clients: Vec<discord_rich_presence::DiscordIpcClient>,
    client_id: String,
    start_time: i64,
    last_car_data: Option<TelemetryData>,
    last_xbl_state: Option<String>,
}

impl DiscordService {
    /// How many IPC clients are connected.
    pub open spec fn spec_client_count(&self) -> nat {
        self.spec_clients().len()
    }

    /// The connected IPC clients.
    pub closed spec fn spec_clients(&self) -> Seq<discord_rich_presence::DiscordIpcClient> {
        self.clients@
    }

    /// The Discord application id.
    pub closed spec fn spec_client_id(&self) -> Seq<char> {
        self.client_id@
    }

    /// The session start, in seconds since the Unix epoch.
    pub closed spec fn spec_start_time(&self) -> i64 {
        self.start_time
    }

    /// The last car data that had a car.
    pub closed spec fn spec_last_car_data(&self) -> Option<TelemetryData> {
        self.last_car_data
    }

    /// The last Xbox Live state worth showing.
    pub closed spec fn spec_last_xbl_state(&self) -> Option<Seq<char>> {
        self.last_xbl_state.deep_view()
    }

    /// A service for the application `client_id`, whose session started at
    /// `start_time`, with no client and nothing remembered.
    pub fn with_start_time(client_id: &str, start_time: i64) -> (r: Self)
        ensures
            r.spec_client_count() == 0,
            r.spec_client_id() == client_id@,
            r.spec_start_time() == start_time,
            r.spec_last_car_data() is None,
            r.spec_last_xbl_state() is None,
    {
        DiscordService {
            clients: Vec::new(),
            client_id: String::from_str(client_id),
            start_time,
            last_car_data: None,
            last_xbl_state: None,
        }
    }

    /// A service for the application `client_id` whose session starts now, in
    /// whole seconds since the Unix epoch; `None` when the system clock reads
    /// before the epoch, where no such time exists.
    pub fn new(client_id: &str) -> (r: Option<Self>)
        ensures
            r matches Some(s) ==> {
                &&& s.spec_client_count() == 0
                &&& s.spec_client_id() == client_id@
                &&& s.spec_last_car_data() is None
                &&& s.spec_last_xbl_state() is None
            },
    {
        let now = system_time_now();
        match elapsed_since_epoch(&now) {
            Some(elapsed) => {
                let secs = whole_seconds(&elapsed);
                Some(Self::with_start_time(client_id, secs as i64))
            },
            None => None,
        }
    }

    /// The Discord application id.
    pub fn client_id(&self) -> (r: &str)
        ensures
            r@ == self.spec_client_id(),
    {
        self.client_id.as_str()
    }

    /// The session start, in seconds since the Unix epoch.
    pub fn start_time(&self) -> (r: i64)
        ensures
            r == self.spec_start_time(),
    {
        self.start_time
    }

    /// Whether any IPC client is connected.
    pub fn has_clients(&self) -> (r: bool)
        ensures
            r == (self.spec_client_count() > 0),
    {
        self.clients.len() > 0
    }

    /// Replaces the connected clients.
    pub fn set_clients(&mut self, clients: Vec<discord_rich_presence::DiscordIpcClient>)
        ensures
            final(self).spec_clients() == clients@,
            final(self).spec_client_id() == old(self).spec_client_id(),
            final(self).spec_start_time() == old(self).spec_start_time(),
            final(self).spec_last_car_data() == old(self).spec_last_car_data(),
            final(self).spec_last_xbl_state() == old(self).spec_last_xbl_state(),
    {
        self.clients = clients;
    }

    /// Hands out the connected clients, leaving none.
    pub fn take_clients(&mut self) -> (r: Vec<discord_rich_presence::DiscordIpcClient>)
        ensures
            r@ == old(self).spec_clients(),
            final(self).spec_clients() == Seq::<discord_rich_presence::DiscordIpcClient>::empty(),
            final(self).spec_client_id() == old(self).spec_client_id(),
            final(self).spec_start_time() == old(self).spec_start_time(),
            final(self).spec_last_car_data() == old(self).spec_last_car_data(),
            final(self).spec_last_xbl_state() == old(self).spec_last_xbl_state(),
    {
        let mut taken: Vec<discord_rich_presence::DiscordIpcClient> = Vec::new();
        std::mem::swap(&mut taken, &mut self.clients);
        taken
    }

    /// The presence to broadcast for a telemetry sample and an Xbox Live
    /// report, or nothing when no client is connected (and then nothing is
    /// remembered either).
    ///
    /// Otherwise a sample with a car is remembered as the car to show and an
    /// accepted Xbox Live report as the state to show, and the presence is built
    /// from what is remembered after that.
    pub fn update_presence<M: GameModule>(
        &mut self,
        data_opt: Option<&TelemetryData>,
        db: &CarDatabase,
        module: &M,
        xbl_state: Option<&str>,
    ) -> (r: Option<Presence>)
        ensures
            final(self).spec_clients() == old(self).spec_clients(),
            final(self).spec_client_id() == old(self).spec_client_id(),
            final(self).spec_start_time() == old(self).spec_start_time(),
            old(self).spec_client_count() == 0 ==> {
                &&& r is None
                &&& final(self).spec_last_car_data() == old(self).spec_last_car_data()
                &&& final(self).spec_last_xbl_state() == old(self).spec_last_xbl_state()
            },
            old(self).spec_client_count() > 0 ==> {
                &&& final(self).spec_last_car_data() == spec_next_car_data(
                    old(self).spec_last_car_data(),
                    sample_of(data_opt),
                )
                &&& final(self).spec_last_xbl_state() == spec_next_xbl_state(
                    old(self).spec_last_xbl_state(),
                    text_of(xbl_state),
                )
                &&& r matches Some(p) && p@ == spec_presence_for(
                    old(self).spec_start_time(),
                    final(self).spec_last_car_data(),
                    final(self).spec_last_xbl_state(),
                    db,
                    module,
                )
            },
    {
        if self.clients.len() == 0 {
            return None;
        }
        let accepted = match xbl_state {
            Some(s) => accepted_xbl_state(s),
            None => None,
        };
        match accepted {
            Some(x) => {
                self.last_xbl_state = Some(x);
            },
            None => {},
        }
        match data_opt {
            Some(d) => {
                if d.car_ordinal != 0 {
                    self.last_car_data = Some(*d);
                }
            },
            None => {},
        }
        let effective_xbl = clone_text(&self.last_xbl_state);
        let effective_data = self.last_car_data;
        let status = match effective_xbl {
            Some(x) => Some(x),
            None => if effective_data.is_some() {
                Some(String::from_str(fallback_status(module.game_name())))
            } else {
                None
            },
        };
        let presence = match effective_data {
            Some(d) => {
                let car_name = db.get_car_name_opt(d.car_ordinal);
                let class_name = module.format_class(d.car_class);
                build_presence(
                    self.start_time,
                    effective_data,
                    status,
                    car_name,
                    class_name,
                    module.logo_asset_key(),
                )
            },
            None => build_presence(
                self.start_time,
                effective_data,
                status,
                None,
                String::new(),
                module.logo_asset_key(),
            ),
        };
        Some(presence)
    }
}

/// An accepted Xbox Live status, reported again, is accepted as it is.
pub proof fn law_accepted_state_is_stable(reported: Seq<char>)
    requires
        spec_accepted_xbl_state(reported) is Some,
    ensures
        spec_accepted_xbl_state(reported) == Some(trim(reported)),
        spec_accepted_xbl_state(trim(reported)) == Some(trim(reported)),
{
    law_trim_idempotent(reported);
}

/// Errors and connection states reported by Xbox Live are never shown in
/// place of what is remembered.
pub proof fn law_rejected_state_keeps_remembered(
    remembered: Option<Seq<char>>,
    reported: Seq<char>,
)
    requires
        !spec_shows_xbl_state(trim(reported), lowercase(trim(reported))),
    ensures
        spec_next_xbl_state(remembered, Some(reported)) == remembered,
{
}

/// A sample without a car, or no sample, leaves the remembered car; a sample
/// with a car is remembered.
pub proof fn law_car_memory(remembered: Option<TelemetryData>, sample: TelemetryData)
    ensures
        spec_next_car_data(remembered, None) == remembered,
        sample.car_ordinal == 0 ==> spec_next_car_data(remembered, Some(sample)) == remembered,
        sample.car_ordinal != 0 ==> spec_next_car_data(remembered, Some(sample)) == Some(sample),
{
}

/// Once something was remembered, an update that brings no news shows the
/// same presence as the update before it.
pub proof fn law_presence_persists_without_news<M: GameModule>(
    start_timestamp: i64,
    remembered_car: Option<TelemetryData>,
    remembered_xbl: Option<Seq<char>>,
    sample: Option<TelemetryData>,
    report: Option<Seq<char>>,
    db: &CarDatabase,
    module: &M,
)
    ensures
        ({
            let car = spec_next_car_data(remembered_car, sample);
            let xbl = spec_next_xbl_state(remembered_xbl, report);
            &&& spec_next_car_data(car, None) == car
            &&& spec_next_xbl_state(xbl, None) == xbl
            &&& spec_presence_for(
                start_timestamp,
                spec_next_car_data(car, None),
                spec_next_xbl_state(xbl, None),
                db,
                module,
            ) == spec_presence_for(start_timestamp, car, xbl, db, module)
        }),
{
}

/// A shown car name never exceeds the display limit.
pub proof fn law_display_name_fits(name: Seq<char>)
    ensures
        spec_display_name(name).len() <= DISPLAY_NAME_MAX_CHARS,
        name.len() <= DISPLAY_NAME_MAX_CHARS ==> spec_display_name(name) == name,
{
    reveal_strlit("...");
}

/// A car that the database does not know shows no car line, no class badge
/// and no car tooltip; with no Xbox Live state it shows no top line either.
pub proof fn law_unknown_car_shows_no_car_details(
    start_timestamp: i64,
    car: TelemetryData,
    status: Option<Seq<char>>,
    class_name: Seq<char>,
    logo: Seq<char>,
)
    ensures
        ({
            let p = spec_presence(start_timestamp, Some(car), status, None, class_name, logo);
            &&& p.state is None
            &&& p.small_image is None
            &&& p.small_text is None
            &&& status is None ==> p.details is None
        }),
{
}

/// While a car is known the status line always says something: the Xbox
/// Live state, or the game's fallback.
pub proof fn law_known_car_has_status(
    xbl: Option<Seq<char>>,
    game_name: Seq<char>,
)
    ensures
        spec_status_line(xbl, true, game_name) is Some,
        xbl is None ==> spec_status_line(xbl, true, game_name) == Some(
            spec_fallback_status(game_name),
        ),
        spec_status_line(None, false, game_name) is None,
{
}

/// A report that is worth showing replaces whatever Xbox Live state was
/// remembered, with the report's trimmed text.
pub proof fn law_accepted_state_replaces_remembered(
    remembered: Option<Seq<char>>,
    reported: Seq<char>,
)
    requires
        spec_shows_xbl_state(trim(reported), lowercase(trim(reported))),
    ensures
        spec_accepted_xbl_state(reported) == Some(trim(reported)),
        spec_next_xbl_state(remembered, Some(reported)) == Some(trim(reported)),
{
}

/// A remembered Xbox Live state is what the presence shows in its large-image
/// tooltip and (when not blank) on its top line, whether or not the car is
/// known; the game's fallback shows only when no state is remembered and a
/// car is, and nothing shows when neither is.
pub proof fn law_remembered_state_is_shown<M: GameModule>(
    start_timestamp: i64,
    car: Option<TelemetryData>,
    xbl: Option<Seq<char>>,
    db: &CarDatabase,
    module: &M,
)
    ensures
        ({
            let p = spec_presence_for(start_timestamp, car, xbl, db, module);
            &&& xbl matches Some(x) ==> {
                &&& p.large_text == Some(x)
                &&& p.details == (if x.len() > 0 {
                    Some(x)
                } else {
                    None
                })
            }
            &&& (xbl is None && car is Some) ==> p.large_text == Some(
                spec_fallback_status(module.spec_game_name()),
            )
            &&& (xbl is None && car is None) ==> p.large_text is None && p.details is None
            &&& p.large_image == module.spec_logo_asset_key()
            &&& p.start_timestamp == start_timestamp
        }),
{
}

} // verus!
