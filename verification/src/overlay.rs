//! The gesture trail overlay: its colours, and the state of the trail, the name
//! label and the fade-out animation as drawing commands and timer ticks change it.
use vstd::prelude::*;
use vstd::utf8::encode_utf8;
use crate::text::{parse_unsigned, parse_unsigned_str};

verus! {

/// `s` without all of its leading '#' characters.
pub open spec fn strip_hashes(s: Seq<char>) -> Seq<char>
    decreases s.len(),
{
    if s.len() > 0 && s[0] == '#' {
        strip_hashes(s.drop_first())
    } else {
        s
    }
}

/// The Windows COLORREF (0x00BBGGRR) of a "#RRGGBB" colour; white when the text
/// (after its leading '#'s) is not six bytes of hexadecimal digits. Its byte length
/// is taken as `str::len` reports it.
pub open spec fn hex_color(s: Seq<char>) -> u32 {
    let t = strip_hashes(s);
    if encode_utf8(t).len() as usize != 6 {
        0x00FFFFFF
    } else {
        match parse_unsigned(t, 16, 0xFFFF_FFFF) {
            None => 0x00FFFFFF,
            Some(rgb) => {
                let r = rgb / 0x10000 % 0x100;
                let g = rgb / 0x100 % 0x100;
                let b = rgb % 0x100;
                (b * 0x10000 + g * 0x100 + r) as u32
            },
        }
    }
}

/// Parse a "#RRGGBB" colour string into a Windows COLORREF (0x00BBGGRR)
pub fn parse_hex_color(s: &str) -> (r: u32)
    ensures
        r == hex_color(s@),
{
    let n = s.unicode_len();
    let mut i: usize = 0;
    assert(s@.skip(0) =~= s@);
    while i < n && s.get_char(i) == '#'
        invariant
            n == s@.len(),
            i <= n,
            strip_hashes(s@) == strip_hashes(s@.skip(i as int)),
        decreases n - i,
    {
        assert(s@.skip(i as int).drop_first() =~= s@.skip(i + 1));
        i = i + 1;
    }
    assert(strip_hashes(s@.skip(i as int)) == s@.skip(i as int));
    assert(s@.skip(i as int) =~= s@.subrange(i as int, n as int));
    let t = s.substring_char(i, n);
    assert(t@ == strip_hashes(s@));
    if t.len() != 6 {
        return 0x00FFFFFF;
    }
    match parse_unsigned_str(t, 16, 0xFFFF_FFFF) {
        None => 0x00FFFFFF,
        Some(rgb) => {
            proof {
                let p = parse_unsigned(t@, 16, 0xFFFF_FFFF);
                assert(p is Some);
                assert(p.unwrap() <= 0xFFFF_FFFF);
                assert(p.unwrap() == rgb as nat);
            }
            let r = rgb / 0x10000 % 0x100;
            let g = rgb / 0x100 % 0x100;
            let b = rgb % 0x100;
            let out = (b * 0x10000 + g * 0x100 + r) as u32;
            assert(out == hex_color(s@));
            out
        },
    }
}

/// A drawing command sent to the overlay.
#[derive(Debug)]
pub enum OverlayCommand {
    /// Start a new trail (reset the state; set colour and line width).
    StartTrail { x: i32, y: i32, color: u32, width: u32 },
    /// Add a trail point and redraw.
    TrailPoint { x: i32, y: i32 },
    /// Show the gesture name near the bottom centre of the screen.
    ShowName { name: String },
    /// Hide the name label (the trail stays).
    HideName,
    /// Start the fade-out animation.
    FadeOut,
    /// Clear everything at once and stop fading.
    Clear,
    /// Close the overlay.
    Shutdown,
}

/// Ticks a fully visible overlay waits before it starts to fade.
pub const FADE_WAIT_TICKS: u8 = 2;

/// Opacity lost at each fading tick.
pub const FADE_STEP: u8 = 32;

/// Distance of the name label above the bottom of the screen.
pub const NAME_LABEL_OFFSET: i32 = 60;

/// What the overlay shows and how far it has faded.
pub struct OverlayState {
    pub points: Vec<(i32, i32)>,
    pub color: u32,
    pub width: u32,
    pub name: Option<(String, i32, i32)>,
    pub fade_alpha: u8,
    /// Ticks left before the opacity starts to fall.
    pub fade_wait: u8,
    /// Whether timer ticks are expected (a tick that comes after the timer was
    /// stopped is ignored).
    pub fading: bool,
    pub origin_x: i32,
    pub origin_y: i32,
    pub screen_w: i32,
    pub screen_h: i32,
}

/// No two consecutive trail points are equal.
pub open spec fn no_repeated_points(p: Seq<(i32, i32)>) -> bool {
    forall|i: int| 0 <= i < p.len() - 1 ==> #[trigger] p[i] != p[i + 1]
}

/// Half of `w`, rounded toward zero (integer division as the machine does it).
pub open spec fn half(w: int) -> int {
    if w >= 0 {
        w / 2
    } else {
        -((-w) / 2)
    }
}

/// What a timer tick did.
#[derive(Debug, Clone, Copy, PartialEq, Eq, Structural)]
pub enum FadeTick {
    /// The tick came while not fading (or at opacity zero): nothing changes.
    Ignored,
    /// Still fading: apply the new opacity and redraw.
    Faded,
    /// The fade is over: stop the timer and redraw the now empty overlay.
    Finished,
}

impl Default for OverlayState {
    fn default() -> (s: Self)
        ensures
            s.points@.len() == 0,
            s.color == 0x00FF9600,
            s.width == 3,
            s.name is None,
            s.fade_alpha == 0,
            s.fade_wait == 0,
            !s.fading,
            s.origin_x == 0 && s.origin_y == 0,
            s.screen_w == 0 && s.screen_h == 0,
    {
        OverlayState {
            points: Vec::new(),
            color: 0x00FF9600,
            width: 3,
            name: None,
            fade_alpha: 0,
            fade_wait: 0,
            fading: false,
            origin_x: 0,
            origin_y: 0,
            screen_w: 0,
            screen_h: 0,
        }
    }
}

impl OverlayState {
    /// The overlay on the virtual screen at (`x`, `y`) of the given size, showing nothing.
    pub fn on_screen(x: i32, y: i32, w: i32, h: i32) -> (s: Self)
        ensures
            s.points@.len() == 0,
            s.color == 0x00FF9600,
            s.width == 3,
            s.name is None,
            s.fade_alpha == 0,
            s.fade_wait == 0,
            !s.fading,
            s.origin_x == x && s.origin_y == y,
            s.screen_w == w && s.screen_h == h,
    {
        let mut s = OverlayState::default();
        s.origin_x = x;
        s.origin_y = y;
        s.screen_w = w;
        s.screen_h = h;
        s
    }

    /// The remaining work of a fade: ticks still to wait plus opacity still to lose.
    pub open spec fn fade_measure(self) -> int {
        self.fade_wait + self.fade_alpha
    }

    /// Starts a new trail on the monitor at (`left`, `top`) of size `w` x `h`, whose first
    /// point is the cursor at `cursor` (in the overlay's coordinates). The caller stops
    /// the fade timer and redraws.
    pub fn start_trail(
        &mut self,
        left: i32,
        top: i32,
        w: i32,
        h: i32,
        cursor: (i32, i32),
        color: u32,
        width: u32,
    )
        ensures
            final(self).points@ == seq![cursor],
            final(self).name is None,
            final(self).fade_alpha == 255,
            final(self).fade_wait == 0,
            !final(self).fading,
            final(self).color == color,
            final(self).width == width,
            final(self).origin_x == left && final(self).origin_y == top,
            final(self).screen_w == w && final(self).screen_h == h,
    {
        self.origin_x = left;
        self.origin_y = top;
        self.screen_w = w;
        self.screen_h = h;
        self.points.clear();
        self.name = None;
        self.fade_alpha = 255;
        self.fade_wait = 0;
        self.fading = false;
        self.color = color;
        self.width = width;
        self.points.push(cursor);
        assert(self.points@ =~= seq![cursor]);
    }

    /// Adds the cursor position `p` to the trail unless it repeats the last point.
    /// The caller redraws.
    pub fn trail_point(&mut self, p: (i32, i32))
        requires
            no_repeated_points(old(self).points@),
        ensures
            no_repeated_points(final(self).points@),
            final(self).points@ == if old(self).points@.len() > 0 && old(self).points@.last() == p {
                old(self).points@
            } else {
                old(self).points@.push(p)
            },
            final(self).name == old(self).name,
            final(self).fade_alpha == old(self).fade_alpha,
            final(self).fade_wait == old(self).fade_wait,
            final(self).fading == old(self).fading,
            final(self).color == old(self).color,
            final(self).width == old(self).width,
    {
        let n = self.points.len();
        if n > 0 && self.points[n - 1].0 == p.0 && self.points[n - 1].1 == p.1 {
            return;
        }
        let ghost before = self.points@;
        self.points.push(p);
        proof {
            assert forall|i: int| 0 <= i < self.points@.len() - 1 implies #[trigger] self.points@[i]
                != self.points@[i + 1] by {
                if i < before.len() - 1 {
                    assert(before[i] != before[i + 1]);
                }
            }
        }
    }

    /// Shows `name` centred near the bottom of the screen at full opacity. The caller
    /// stops the fade timer and redraws.
    pub fn show_name(&mut self, name: String)
        requires
            old(self).screen_h >= i32::MIN + NAME_LABEL_OFFSET,
        ensures
            final(self).name matches Some((n, x, y)) && n@ == name@ && x == half(old(self).screen_w as int)
                && y == old(self).screen_h - NAME_LABEL_OFFSET,
            final(self).fade_alpha == 255,
            final(self).points == old(self).points,
            final(self).fade_wait == old(self).fade_wait,
            final(self).fading == old(self).fading,
    {
        let cx = self.screen_w / 2;
        let cy = self.screen_h - NAME_LABEL_OFFSET;
        self.name = Some((name, cx, cy));
        self.fade_alpha = 255;
    }

    /// Hides the name label. The caller redraws.
    pub fn hide_name(&mut self)
        ensures
            final(self).name is None,
            final(self).points == old(self).points,
            final(self).fade_alpha == old(self).fade_alpha,
            final(self).fade_wait == old(self).fade_wait,
            final(self).fading == old(self).fading,
    {
        self.name = None;
    }

    /// Starts the fade-out when anything is visible; returns whether it started (the
    /// caller then restarts the fade timer).
    pub fn fade_out(&mut self) -> (started: bool)
        ensures
            started == (old(self).fade_alpha > 0),
            started ==> final(self).fade_wait == FADE_WAIT_TICKS && final(self).fading,
            !started ==> final(self).fade_wait == old(self).fade_wait && final(self).fading == old(self).fading,
            final(self).fade_alpha == old(self).fade_alpha,
            final(self).points == old(self).points,
            final(self).name == old(self).name,
    {
        if self.fade_alpha > 0 {
            self.fade_wait = FADE_WAIT_TICKS;
            self.fading = true;
            true
        } else {
            false
        }
    }

    /// Clears the trail and the name and stops fading. The caller stops the fade timer
    /// and redraws.
    pub fn clear(&mut self)
        ensures
            final(self).points@.len() == 0,
            final(self).name is None,
            final(self).fade_alpha == 255,
            final(self).fade_wait == 0,
            !final(self).fading,
            final(self).color == old(self).color,
            final(self).width == old(self).width,
    {
        self.points.clear();
        self.name = None;
        self.fade_alpha = 255;
        self.fade_wait = 0;
        self.fading = false;
    }

    /// One tick of the fade timer: after the waiting ticks the opacity falls by
    /// `FADE_STEP` (to zero at most); at zero the overlay is emptied, fading stops and
    /// the opacity goes back to full (black is transparent, so nothing shows).
    pub fn timer_tick(&mut self) -> (t: FadeTick)
        ensures
            (t == FadeTick::Ignored) == (!old(self).fading || old(self).fade_alpha == 0),
            t == FadeTick::Ignored ==> *final(self) == *old(self),
            t == FadeTick::Faded ==> final(self).fading && final(self).fade_alpha > 0
                && final(self).fade_measure() < old(self).fade_measure()
                && final(self).points == old(self).points && final(self).name == old(self).name,
            t == FadeTick::Faded ==> if old(self).fade_wait > 0 {
                final(self).fade_wait == old(self).fade_wait - 1 && final(self).fade_alpha == old(self).fade_alpha
            } else {
                final(self).fade_wait == 0 && final(self).fade_alpha == old(self).fade_alpha
                    - FADE_STEP
            },
            t == FadeTick::Finished ==> final(self).points@.len() == 0 && final(self).name is None
                && final(self).fade_alpha == 255 && final(self).fade_wait == 0 && !final(self).fading,
            t == FadeTick::Finished ==> old(self).fade_wait == 0 && old(self).fade_alpha
                <= FADE_STEP,
            final(self).color == old(self).color,
            final(self).width == old(self).width,
    {
        if !self.fading || self.fade_alpha == 0 {
            return FadeTick::Ignored;
        }
        if self.fade_wait > 0 {
            self.fade_wait = self.fade_wait - 1;
        } else if self.fade_alpha <= FADE_STEP {
            self.fade_alpha = 0;
        } else {
            self.fade_alpha = self.fade_alpha - FADE_STEP;
        }
        if self.fade_alpha == 0 {
            self.points.clear();
            self.name = None;
            self.fade_wait = 0;
            self.fading = false;
            self.fade_alpha = 255;
            FadeTick::Finished
        } else {
            FadeTick::Faded
        }
    }
}

/// What the trail looks like when drawn.
#[derive(Debug, Clone, Copy, PartialEq, Eq, Structural)]
pub enum TrailShape {
    /// Nothing to draw: no trail and no name; only the opacity is applied.
    Empty,
    /// No trail line (there is a name to draw).
    NoLine,
    /// A single point: a dot of the line width's radius around it.
    Dot { x: i32, y: i32, radius: i32 },
    /// A line through all points.
    Polyline,
}

impl OverlayState {
    /// How the trail is drawn; a single point's dot has the line width, taken as an
    /// `i32` (a width above `i32::MAX` wraps around), as its radius.
    pub fn trail_shape(&self) -> (r: TrailShape)
        ensures
            r == if self.points@.len() == 0 && self.name is None {
                TrailShape::Empty
            } else if self.points@.len() >= 2 {
                TrailShape::Polyline
            } else if self.points@.len() == 1 {
                TrailShape::Dot {
                    x: self.points@[0].0,
                    y: self.points@[0].1,
                    radius: self.width as i32,
                }
            } else {
                TrailShape::NoLine
            },
    {
        let n = self.points.len();
        if n == 0 && self.name.is_none() {
            TrailShape::Empty
        } else if n >= 2 {
            TrailShape::Polyline
        } else if n == 1 {
            TrailShape::Dot {
                x: self.points[0].0,
                y: self.points[0].1,
                radius: #[verifier::truncate] (self.width as i32),
            }
        } else {
            TrailShape::NoLine
        }
    }
}

/// Height above the label's anchor at which its text is centred.
pub const LABEL_RAISE: i32 = 20;

/// Padding around the label text.
pub const LABEL_PAD: i32 = 8;

/// A rectangle as left, top, right, bottom.
pub type Rect = (i32, i32, i32, i32);

/// The background and text rectangles of a name label anchored at (`x`, `y`) whose text
/// measures `text_w` x `text_h`: the text is centred 20 pixels above the anchor and the
/// background extends 8 pixels beyond it on each side (halves rounded toward zero).
pub fn label_rects(x: i32, y: i32, text_w: i32, text_h: i32) -> (r: (Rect, Rect))
    requires
        0 <= text_w,
        0 <= text_h,
        i32::MIN <= x - text_w / 2 - LABEL_PAD,
        x + text_w / 2 + LABEL_PAD <= i32::MAX,
        i32::MIN <= y - LABEL_RAISE - text_h / 2 - LABEL_PAD,
        y - LABEL_RAISE + text_h / 2 + LABEL_PAD <= i32::MAX,
    ensures
        ({
            let tw = text_w / 2;
            let th = text_h / 2;
            let ty = y - LABEL_RAISE;
            &&& r.0 == (
                (x - tw - LABEL_PAD) as i32,
                (ty - th - LABEL_PAD) as i32,
                (x + tw + LABEL_PAD) as i32,
                (ty + th + LABEL_PAD) as i32,
            )
            &&& r.1 == ((x - tw) as i32, (ty - th) as i32, (x + tw) as i32, (ty + th) as i32)
        }),
{
    let text_y = y - LABEL_RAISE;
    let hw = text_w / 2;
    let hh = text_h / 2;
    let bg = (x - hw - LABEL_PAD, text_y - hh - LABEL_PAD, x + hw + LABEL_PAD, text_y + hh + LABEL_PAD);
    let text = (x - hw, text_y - hh, x + hw, text_y + hh);
    (bg, text)
}

} // verus!
