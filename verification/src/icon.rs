//! The tray icon: a 16 by 16 circular dot rendered as raw RGBA bytes, in
//! integer arithmetic, and the colour and tooltip each connection status
//! shows.

use vstd::prelude::*;
use crate::state::ConnectionStatus;

verus! {

/// Four times the squared distance from pixel centre (x, y) to the
/// middle of the 16-pixel square: (2x - 15)^2 + (2y - 15)^2.
pub open spec fn spec_icon_d4(x: int, y: int) -> int {
    (2 * x - 15) * (2 * x - 15) + (2 * y - 15) * (2 * y - 15)
}

/// The opacity of the one-pixel rim around the disc, stepped by how far
/// the pixel centre sits past the disc's radius of 7.
pub open spec fn spec_edge_alpha(d4: int) -> u8 {
    if d4 < 225 {
        255u8
    } else if d4 < 256 {
        127u8
    } else {
        0u8
    }
}

/// One pixel of the icon: the solid colour inside the disc, a dimmed rim
/// just outside it, transparency beyond.
pub open spec fn spec_icon_pixel(r: u8, g: u8, b: u8, x: int, y: int) -> Seq<u8> {
    let d4 = spec_icon_d4(x, y);
    if d4 <= 196 {
        seq![r, g, b, 255u8]
    } else if d4 <= 256 {
        seq![r, g, b, spec_edge_alpha(d4)]
    } else {
        seq![0u8, 0u8, 0u8, 0u8]
    }
}

/// Renders the 16 by 16 RGBA dot, row by row: a filled circle of the
/// given colour with a softened edge.
pub fn generate_icon(r: u8, g: u8, b: u8) -> (rgba: Vec<u8>)
    ensures
        rgba@.len() == 1024,
        forall|i: int|
            0 <= i < 256 ==> #[trigger] rgba@.subrange(4 * i, 4 * i + 4) == spec_icon_pixel(
                r,
                g,
                b,
                i % 16,
                i / 16,
            ),
{
    let mut v: Vec<u8> = Vec::new();
    let mut i: usize = 0;
    while i < 256
        invariant
            i <= 256,
            v@.len() == 4 * i,
            forall|j: int|
                0 <= j < i ==> #[trigger] v@.subrange(4 * j, 4 * j + 4) == spec_icon_pixel(
                    r,
                    g,
                    b,
                    j % 16,
                    j / 16,
                ),
        decreases 256 - i,
    {
        let ghost prev = v@;
        let x = (i % 16) as i64;
        let y = (i / 16) as i64;
        let dx = 2 * x - 15;
        let dy = 2 * y - 15;
        proof {
            assert(-15 <= dx <= 15 && -15 <= dy <= 15);
            assert(dx * dx <= 225 && dx * dx >= 0) by (nonlinear_arith)
                requires
                    -15 <= dx <= 15,
            ;
            assert(dy * dy <= 225 && dy * dy >= 0) by (nonlinear_arith)
                requires
                    -15 <= dy <= 15,
            ;
        }
        let d4 = dx * dx + dy * dy;
        if d4 <= 196 {
            v.push(r);
            v.push(g);
            v.push(b);
            v.push(255);
        } else if d4 <= 256 {
            let alpha: u8 = if d4 < 225 {
                255
            } else if d4 < 256 {
                127
            } else {
                0
            };
            v.push(r);
            v.push(g);
            v.push(b);
            v.push(alpha);
        } else {
            v.push(0);
            v.push(0);
            v.push(0);
            v.push(0);
        }
        proof {
            assert(v@.subrange(4 * i as int, 4 * i as int + 4) =~= spec_icon_pixel(
                r,
                g,
                b,
                i as int % 16,
                i as int / 16,
            ));
            assert forall|j: int| 0 <= j < i implies #[trigger] v@.subrange(4 * j, 4 * j + 4)
                == spec_icon_pixel(r, g, b, j % 16, j / 16) by {
                assert(v@.subrange(4 * j, 4 * j + 4) =~= prev.subrange(4 * j, 4 * j + 4));
            }
        }
        i += 1;
    }
    v
}

/// The dot's colour for each status: green connected, yellow working,
/// red disconnected, grey in between states.
pub fn status_color(status: ConnectionStatus) -> (c: (u8, u8, u8))
    ensures
        c == match status {
            ConnectionStatus::Connected => (34u8, 197u8, 94u8),
            ConnectionStatus::Working => (234u8, 179u8, 8u8),
            ConnectionStatus::Disconnected => (239u8, 68u8, 68u8),
            ConnectionStatus::Connecting => (156u8, 163u8, 175u8),
            ConnectionStatus::Paused => (156u8, 163u8, 175u8),
        },
{
    match status {
        ConnectionStatus::Connected => (34, 197, 94),
        ConnectionStatus::Working => (234, 179, 8),
        ConnectionStatus::Disconnected => (239, 68, 68),
        ConnectionStatus::Connecting => (156, 163, 175),
        ConnectionStatus::Paused => (156, 163, 175),
    }
}

/// The tray tooltip for each status.
pub fn status_tooltip(status: ConnectionStatus) -> (t: &'static str)
    ensures
        t@ == match status {
            ConnectionStatus::Connected => "Vibecode Agent - Connected"@,
            ConnectionStatus::Working => "Vibecode Agent - Working..."@,
            ConnectionStatus::Disconnected => "Vibecode Agent - Disconnected"@,
            ConnectionStatus::Connecting => "Vibecode Agent - Connecting..."@,
            ConnectionStatus::Paused => "Vibecode Agent - Paused"@,
        },
{
    match status {
        ConnectionStatus::Connected => "Vibecode Agent - Connected",
        ConnectionStatus::Working => "Vibecode Agent - Working...",
        ConnectionStatus::Disconnected => "Vibecode Agent - Disconnected",
        ConnectionStatus::Connecting => "Vibecode Agent - Connecting...",
        ConnectionStatus::Paused => "Vibecode Agent - Paused",
    }
}

} // verus!
