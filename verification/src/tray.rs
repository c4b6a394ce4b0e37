//! The system tray: its menu messages and its icon.

use vstd::prelude::*;

verus! {

/// Messages from the tray icon to the app.
#[derive(Clone, Copy, Debug, PartialEq, Eq)]
pub enum TrayMessage {
    Show,
    Quit,
}

/// Width and height of the tray icon, in pixels.
pub const ICON_SIZE: u32 = 16u32;

/// The icon's colour, one byte per channel (red, green, blue, alpha).
pub open spec fn icon_channel(c: int) -> u8 {
    if c == 0 {
        140
    } else if c == 1 {
        80
    } else if c == 2 {
        220
    } else {
        255
    }
}

impl TrayMessage {
    /// The message of a clicked menu item, known by its identifier: `Show`
    /// for the show item, `Quit` for the quit item, nothing for another item.
    pub fn from_menu_id(clicked: &String, show_id: &String, quit_id: &String) -> (r: Option<TrayMessage>)
        ensures
            clicked@ == show_id@ ==> r == Some(TrayMessage::Show),
            clicked@ != show_id@ && clicked@ == quit_id@ ==> r == Some(TrayMessage::Quit),
            clicked@ != show_id@ && clicked@ != quit_id@ ==> r is None,
    {
        if *clicked == *show_id {
            Some(TrayMessage::Show)
        } else if *clicked == *quit_id {
            Some(TrayMessage::Quit)
        } else {
            None
        }
    }
}

/// The pixels of the tray icon: a filled square of one colour, as RGBA bytes
/// row by row.
pub fn icon_rgba() -> (rgba: Vec<u8>)
    ensures
        rgba@.len() == ICON_SIZE * ICON_SIZE * 4,
        forall|i: int| 0 <= i < rgba@.len() ==> #[trigger] rgba@[i] == icon_channel(i % 4),
{
    let pixels: u32 = ICON_SIZE * ICON_SIZE;
    let mut rgba: Vec<u8> = Vec::new();
    let mut p: u32 = 0;
    while p < pixels
        invariant
            pixels == ICON_SIZE * ICON_SIZE,
            p <= pixels,
            rgba@.len() == 4 * p,
            forall|i: int| 0 <= i < rgba@.len() ==> #[trigger] rgba@[i] == icon_channel(i % 4),
        decreases pixels - p,
    {
        let ghost n = rgba@.len() as int;
        rgba.push(140);
        rgba.push(80);
        rgba.push(220);
        rgba.push(255);
        assert forall|i: int| 0 <= i < rgba@.len() implies #[trigger] rgba@[i] == icon_channel(i % 4) by {
            if i >= n {
                assert(n % 4 == 0);
                assert((i - n) == i % 4) by {
                    assert(n == 4 * p);
                }
            }
        }
        p = p + 1;
    }
    rgba
}

/// Every pixel of the icon is red 140, green 80, blue 220, fully opaque.
pub proof fn icon_colour()
    ensures
        icon_channel(0) == 140,
        icon_channel(1) == 80,
        icon_channel(2) == 220,
        icon_channel(3) == 255,
{
}

} // verus!
