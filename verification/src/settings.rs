//! The watch's settings and timing: which sound device is shown as chosen,
//! and when the feeds are asked for again.
use vstd::prelude::*;
use vstd::string::*;

verus! {

/// The floor from which alarms sound, before the user changes it.
pub const DEFAULT_FLOOR_ALARM_START: i32 = 11;

/// The highest floor the alarm start can be set to (the lowest is 0).
pub const MAX_FLOOR_ALARM_START: i32 = 16;

/// How long the live heights are kept before they are asked for again.
pub const LIVE_HEIGHTS_REFRESH_NANOS: u128 = 5_000_000_000;

/// How long the leaderboard is kept before it is asked for again.
pub const LEADERBOARD_REFRESH_NANOS: u128 = 61_234_000_000;

/// The name shown for the chosen sound device.
pub open spec fn device_label_of(devices: Seq<Seq<char>>, ix: int) -> Seq<char> {
    if 0 <= ix < devices.len() {
        devices[ix]
    } else if devices.len() > 0 {
        devices[0]
    } else {
        "None (No Devices?)"@
    }
}

/// The name shown for the chosen sound device: device `ix` of the list, or
/// the first one where there is no such device, or a note that there are
/// none.
pub fn selected_device_label(devices: &Vec<String>, ix: usize) -> (label: String)
    ensures
        label@ == device_label_of(devices@.map_values(|d: String| d@), ix as int),
{
    proof {
        reveal_strlit("None (No Devices?)");
    }
    if ix < devices.len() {
        devices[ix].clone()
    } else if devices.len() > 0 {
        devices[0].clone()
    } else {
        String::from_str("None (No Devices?)")
    }
}

/// Whether the alarm watch runs on this frame: only while the climbers are
/// shown (the settings hidden) and the player list has been cleared since
/// it last ran, so that each new snapshot is watched once.
pub fn alarm_watch_due(show_settings: bool, players_built: bool) -> (due: bool)
    ensures
        due == (!show_settings && !players_built),
{
    !show_settings && !players_built
}

/// Whether the live heights are due to be asked for again, `elapsed_nanos`
/// after the last request.
pub fn live_heights_due(elapsed_nanos: u128) -> (due: bool)
    ensures
        due == (elapsed_nanos > LIVE_HEIGHTS_REFRESH_NANOS),
{
    elapsed_nanos > LIVE_HEIGHTS_REFRESH_NANOS
}

/// Whether the leaderboard is due to be asked for again, `elapsed_nanos`
/// after the last request.
pub fn leaderboard_due(elapsed_nanos: u128) -> (due: bool)
    ensures
        due == (elapsed_nanos > LEADERBOARD_REFRESH_NANOS),
{
    elapsed_nanos > LEADERBOARD_REFRESH_NANOS
}

} // verus!
