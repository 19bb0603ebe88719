//! Placement and size of the floating window, and when the background
//! watcher synchronizes.

use vstd::prelude::*;

use crate::text::str_eq;

verus! {

/// The logical size of the floating window: the detailed preset is larger,
/// every other mode uses the compact size.
pub fn widget_size(mode: &str) -> (size: (u32, u32))
    ensures
        size == if mode@ == "detailed"@ { (468u32, 480u32) } else { (320u32, 176u32) },
{
    if str_eq(mode, "detailed") { (468, 480) } else { (320, 176) }
}

/// Where the floating window appears: at the bottom-right corner of the
/// monitor, 18 pixels from the right edge and 58 from the bottom.
pub open spec fn corner_position_spec(monitor_x: int, monitor_y: int, monitor_width: int, monitor_height: int, window_width: int, window_height: int) -> (int, int) {
    (monitor_x + monitor_width - window_width - 18, monitor_y + monitor_height - window_height - 58)
}

/// The physical position of the floating window on a monitor.
pub fn widget_corner_position(
    monitor_x: i32,
    monitor_y: i32,
    monitor_width: i32,
    monitor_height: i32,
    window_width: i32,
    window_height: i32,
) -> (position: (i32, i32))
    requires
        i32::MIN <= monitor_x + monitor_width <= i32::MAX,
        i32::MIN <= monitor_x + monitor_width - window_width <= i32::MAX,
        i32::MIN <= monitor_x + monitor_width - window_width - 18 <= i32::MAX,
        i32::MIN <= monitor_y + monitor_height <= i32::MAX,
        i32::MIN <= monitor_y + monitor_height - window_height <= i32::MAX,
        i32::MIN <= monitor_y + monitor_height - window_height - 58 <= i32::MAX,
    ensures
        (position.0 as int, position.1 as int) == corner_position_spec(
            monitor_x as int,
            monitor_y as int,
            monitor_width as int,
            monitor_height as int,
            window_width as int,
            window_height as int,
        ),
{
    (monitor_x + monitor_width - window_width - 18, monitor_y + monitor_height - window_height - 58)
}

/// Whether the watcher synchronizes after a wait: never while paused, and
/// otherwise when a file changed or a watch is in place.
pub fn should_sync_after_wait(paused: bool, changed: bool, watching: bool) -> (sync: bool)
    ensures
        sync == (!paused && (changed || watching)),
{
    !paused && (changed || watching)
}

} // verus!
