//! What the tray icon shows: its menu texts, its tooltip and its picture.
//! Creating the icon and reading its events is the tray toolkit's part.

use vstd::prelude::*;
use crate::text::{chars_of, decimal, extend_str, push_decimal_padded, string_of};
use crate::ui::UiState;

verus! {

/// Width and height of the icon, in pixels.
pub const ICON_SIZE: u32 = 16;

/// The text of the remapping toggle.
pub fn toggle_label(enabled: bool) -> (r: &'static str)
    ensures
        r@ == (if enabled { "Disable Remapping"@ } else { "Enable Remapping"@ }),
{
    if enabled { "Disable Remapping" } else { "Enable Remapping" }
}

/// The menu line naming the current profile.
pub fn profile_label(state: &UiState) -> (r: String)
    ensures
        r@ == "Profile: "@ + state.current_profile@,
{
    let mut out = chars_of("Profile: ");
    extend_str(&mut out, state.current_profile.as_str());
    string_of(&out)
}

/// The tooltip: the device, and the battery level when known.
pub fn tooltip(state: &UiState) -> (r: String)
    ensures
        r@ == (match state.battery_pct {
            Some(p) => "Mouser \u{2014} "@ + state.device_name@ + " \u{2014} "@ + decimal(p as nat) + "%"@,
            None => "Mouser \u{2014} "@ + state.device_name@,
        }),
{
    let mut out = chars_of("Mouser \u{2014} ");
    extend_str(&mut out, state.device_name.as_str());
    if let Some(p) = state.battery_pct {
        extend_str(&mut out, " \u{2014} ");
        push_decimal_padded(&mut out, p as u64, 0);
        extend_str(&mut out, "%");
    }
    string_of(&out)
}

/// Pixel (x, y) of the icon is inside its disc: within 7 pixels of (8, 8).
pub open spec fn in_disc(x: int, y: int) -> bool {
    (x - 8) * (x - 8) + (y - 8) * (y - 8) <= 49
}

/// The RGBA bytes of pixel `p` (row-major).
pub open spec fn icon_pixel(p: int) -> Seq<u8> {
    if in_disc(p % 16, p / 16) {
        seq![220u8, 220u8, 220u8, 255u8]
    } else {
        seq![0u8, 0u8, 0u8, 0u8]
    }
}

/// The icon: a light disc on a transparent square, as RGBA rows.
pub fn icon_rgba() -> (r: Vec<u8>)
    ensures
        r@.len() == 1024,
        forall|p: int| 0 <= p < 256 ==> #[trigger] r@.subrange(4 * p, 4 * p + 4) == icon_pixel(p),
{
    let mut out: Vec<u8> = Vec::new();
    let mut y: i32 = 0;
    while y < 16
        invariant
            0 <= y <= 16,
            out@.len() == 64 * y,
            forall|p: int| 0 <= p < 16 * y ==> #[trigger] out@.subrange(4 * p, 4 * p + 4) == icon_pixel(p),
        decreases 16 - y,
    {
        let mut x: i32 = 0;
        while x < 16
            invariant
                0 <= y < 16,
                0 <= x <= 16,
                out@.len() == 64 * y + 4 * x,
                forall|p: int| 0 <= p < 16 * y + x ==> #[trigger] out@.subrange(4 * p, 4 * p + 4) == icon_pixel(p),
            decreases 16 - x,
        {
            let dx = x - 8;
            let dy = y - 8;
            assert(0 <= dx * dx <= 64 && 0 <= dy * dy <= 64) by (nonlinear_arith)
                requires -8 <= dx < 8, -8 <= dy < 8;
            let inside = dx * dx + dy * dy <= 49;
            let ghost before = out@;
            if inside {
                out.push(220);
                out.push(220);
                out.push(220);
                out.push(255);
            } else {
                out.push(0);
                out.push(0);
                out.push(0);
                out.push(0);
            }
            proof {
                let q = 16 * y + x;
                assert((q % 16) == x as int && q / 16 == y as int) by (nonlinear_arith)
                    requires q == 16 * y + x, 0 <= x < 16, 0 <= y;
                assert(out@.subrange(4 * q, 4 * q + 4) =~= icon_pixel(q));
                assert forall|p: int| 0 <= p < q implies #[trigger] out@.subrange(4 * p, 4 * p + 4) == icon_pixel(p) by {
                    assert(out@.subrange(4 * p, 4 * p + 4) =~= before.subrange(4 * p, 4 * p + 4));
                }
            }
            x += 1;
        }
        y += 1;
    }
    out
}

} // verus!
