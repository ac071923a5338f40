use vstd::prelude::*;

verus! {

/// The number of bytes from which a datagram is taken for a Forza Horizon
/// "Data Out" (Dash) packet.
pub const DASH_PACKET_MIN_LEN: usize = 311;

/// The port on which the game is told to send its telemetry.
pub const DEFAULT_TELEMETRY_PORT: u16 = 9909;

/// The size of the receive buffer that datagrams are read into.
pub const RECEIVE_BUFFER_LEN: usize = 512;

/// Offsets of the fields read from a Dash packet.
pub const IS_RACE_ON_OFFSET: usize = 0;
pub const CAR_ORDINAL_OFFSET: usize = 212;
pub const CAR_CLASS_OFFSET: usize = 216;
pub const CAR_PI_OFFSET: usize = 220;
pub const SPEED_OFFSET: usize = 256;

/// What the presence needs from one telemetry packet.
///
/// The speed is kept as the bit pattern of the packet's little-endian `f32`
/// field (metres per second); turning it into a number is left to the caller.
#[derive(Clone, Copy, Debug, Default, PartialEq, Eq)]
pub struct TelemetryData {
    pub car_ordinal: i32,
    pub car_class: i32,
    pub car_pi: i32,
    pub speed_bits: u32,
    pub is_race_on: i32,
}

/// The unsigned little-endian value of the four bytes of `buf` from `at`.
pub open spec fn le_u32_at(buf: Seq<u8>, at: int) -> int {
    buf[at] + 256 * buf[at + 1] + 65536 * buf[at + 2] + 16777216 * buf[at + 3]
}

/// The two's-complement reading of a 32-bit unsigned value.
pub open spec fn as_signed32(u: int) -> int {
    if u < 0x8000_0000 {
        u
    } else {
        u - 0x1_0000_0000
    }
}

/// The little-endian `i32` at `offset`, or 0 when the buffer ends before it.
pub open spec fn read_i32_at(buf: Seq<u8>, offset: int) -> i32 {
    if offset + 4 <= buf.len() {
        as_signed32(le_u32_at(buf, offset)) as i32
    } else {
        0
    }
}

/// The little-endian 32-bit pattern at `offset`, or 0 (the pattern of `0.0`)
/// when the buffer ends before it.
pub open spec fn read_u32_at(buf: Seq<u8>, offset: int) -> u32 {
    if offset + 4 <= buf.len() {
        le_u32_at(buf, offset) as u32
    } else {
        0
    }
}

/// The telemetry that a packet buffer holds.
pub open spec fn spec_parse_packet(buf: Seq<u8>) -> TelemetryData {
    TelemetryData {
        car_ordinal: read_i32_at(buf, CAR_ORDINAL_OFFSET as int),
        car_class: read_i32_at(buf, CAR_CLASS_OFFSET as int),
        car_pi: read_i32_at(buf, CAR_PI_OFFSET as int),
        speed_bits: read_u32_at(buf, SPEED_OFFSET as int),
        is_race_on: read_i32_at(buf, IS_RACE_ON_OFFSET as int),
    }
}

fn read_u32_le(buf: &[u8], offset: usize) -> (r: u32)
    ensures
        r == read_u32_at(buf@, offset as int),
{
    if offset <= buf.len() && 4 <= buf.len() - offset {
        let b0 = buf[offset] as u32;
        let b1 = buf[offset + 1] as u32;
        let b2 = buf[offset + 2] as u32;
        let b3 = buf[offset + 3] as u32;
        b0 + b1 * 256 + b2 * 65536 + b3 * 16777216
    } else {
        0
    }
}

fn read_i32_le(buf: &[u8], offset: usize) -> (r: i32)
    ensures
        r == read_i32_at(buf@, offset as int),
{
    let u = read_u32_le(buf, offset);
    if offset <= buf.len() && 4 <= buf.len() - offset {
        if u < 0x8000_0000 {
            u as i32
        } else {
            let low = (u - 0x8000_0000) as i32;
            low - 0x7fff_ffff - 1
        }
    } else {
        0
    }
}

/// Whether a start launches a worker, given whether one is running.
pub open spec fn spec_start_launches(running: bool) -> bool {
    !running
}

/// Whether a worker is running after a start.
pub open spec fn spec_running_after_start(running: bool) -> bool {
    true
}

/// Whether a worker is running after a stop.
pub open spec fn spec_running_after_stop(running: bool) -> bool {
    false
}

/// Starting twice launches one worker; a stop lets the next start launch a
/// new one.
pub proof fn law_start_stop_cycle(running: bool)
    ensures
        !spec_start_launches(spec_running_after_start(running)),
        spec_running_after_start(spec_running_after_start(running)) == spec_running_after_start(
            running,
        ),
        spec_start_launches(spec_running_after_stop(running)),
        !spec_running_after_stop(spec_running_after_start(running)),
{
}

/// A buffer too short for any field reads as all zeros.
pub proof fn law_short_buffer_reads_zero(buf: Seq<u8>)
    ensures
        buf.len() < 4 ==> spec_parse_packet(buf) == (TelemetryData {
            car_ordinal: 0,
            car_class: 0,
            car_pi: 0,
            speed_bits: 0,
            is_race_on: 0,
        }),
{
}

/// A lifecycle of the telemetry listener: whether a receiving worker has been
/// started and not yet told to stop.
pub struct TelemetryServer {
    is_running: bool,
}

impl View for TelemetryServer {
    type V = bool;

    closed spec fn view(&self) -> bool {
        self.is_running
    }
}

impl TelemetryServer {
    /// A listener that is not running.
    pub fn new() -> (r: Self)
        ensures
            r@ == false,
    {
        TelemetryServer { is_running: false }
    }

    /// Whether a worker is running.
    pub fn is_running(&self) -> (r: bool)
        ensures
            r == self@,
    {
        self.is_running
    }

    /// Claims the start of a worker: returns `true`, and marks the listener
    /// running, when none is running; a start while running does nothing.
    pub fn claim_start(&mut self) -> (started: bool)
        ensures
            started == spec_start_launches(old(self)@),
            final(self)@ == spec_running_after_start(old(self)@),
    {
        if self.is_running {
            false
        } else {
            self.is_running = true;
            true
        }
    }

    /// Tells the worker to stop.
    pub fn stop(&mut self)
        ensures
            final(self)@ == spec_running_after_stop(old(self)@),
    {
        self.is_running = false;
    }

    /// Records that the worker gave up because its socket could not be set up.
    pub fn worker_failed(&mut self)
        ensures
            final(self)@ == false,
    {
        self.is_running = false;
    }

    /// Reads the fields of a Dash packet out of a receive buffer; a field that
    /// the buffer does not hold in full reads as zero.
    pub fn parse_packet(buf: &[u8]) -> (r: TelemetryData)
        ensures
            r == spec_parse_packet(buf@),
    {
        let is_race_on = read_i32_le(buf, IS_RACE_ON_OFFSET);
        let car_ordinal = read_i32_le(buf, CAR_ORDINAL_OFFSET);
        let car_class = read_i32_le(buf, CAR_CLASS_OFFSET);
        let car_pi = read_i32_le(buf, CAR_PI_OFFSET);
        let speed_bits = read_u32_le(buf, SPEED_OFFSET);
        TelemetryData { car_ordinal, car_class, car_pi, speed_bits, is_race_on }
    }

    /// What a received datagram of `size` bytes yields: the telemetry read from
    /// the whole receive buffer when the datagram is long enough to be a Dash
    /// packet, nothing otherwise.
    pub fn handle_datagram(buf: &[u8], size: usize) -> (r: Option<TelemetryData>)
        ensures
            r == (if size >= DASH_PACKET_MIN_LEN {
                Some(spec_parse_packet(buf@))
            } else {
                None
            }),
    {
        if size >= DASH_PACKET_MIN_LEN {
            Some(Self::parse_packet(buf))
        } else {
            None
        }
    }
}

} // verus!
