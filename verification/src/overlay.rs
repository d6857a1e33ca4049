use vstd::prelude::*;

use crate::gauge;
use crate::percent;
use crate::placement;

verus! {

/// Lifecycle phase of the overlay. The phases are traversed in order and
/// `Destroyed` is terminal; a non-compositing environment skips `Fading`.
#[derive(Clone, Copy, PartialEq, Eq, Structural, Debug)]
pub enum Phase {
    Visible,
    Fading,
    Destroyed,
}

/// What a fade tick asks of the windowing system.
#[derive(Clone, Copy, PartialEq, Eq, Structural, Debug)]
pub enum TickAction {
    /// Nothing changed; keep the fade timer running.
    Wait,
    /// The opacity was lowered; request a redraw and keep the timer running.
    Step,
    /// The opacity was clamped to zero; request a redraw, let the fade
    /// timer end, and destroy the window.
    Finish,
}

/// What the hide timeout asks of the windowing system.
#[derive(Clone, Copy, PartialEq, Eq, Structural, Debug)]
pub enum HideAction {
    /// Compositing was active: the fade begins; nothing to do outside.
    BeginFade,
    /// No compositing: cancel the fade timer and destroy the window now.
    Destroy,
}

/// Which image the icon element paints, after the two lookups: the theme
/// lookup is preferred, a direct file load is the fallback, and when both
/// fail the element is absent from the frame.
#[derive(Clone, Copy, PartialEq, Eq, Structural, Debug)]
pub enum IconSource {
    Theme,
    File,
    Absent,
}

/// The overlay's whole state: fixed panel configuration, the three
/// optional content channels, and the lifecycle fields driven by the two
/// timers. Opacities are carried in hundredths, so `opacity == 100` is
/// fully opaque and one fade step lowers it by 5.
pub struct Overlay {
    /// Panel width in pixels.
    pub base_width: i32,
    /// Panel height in pixels.
    pub base_height: i32,
    /// Caption font size.
    pub base_font_size: i32,
    /// Width of a gauge bar stroke.
    pub base_line_width: i32,
    /// Inset of the panel from the monitor's bottom-right corner.
    pub screen_margin: i32,
    /// Inner padding of the panel.
    pub base_padding: i32,
    /// Corner radius of the rounded background.
    pub bg_corner_radius: i32,
    /// Number of bars in a full gauge ring.
    pub num_bars: i32,
    /// Background fill opacity, in hundredths.
    pub bg_opacity: i32,
    /// Mute attenuation of the caption, in hundredths.
    pub mute_opacity: i32,
    /// Caption opacity, in hundredths.
    pub text_opacity: i32,
    /// Overall opacity of the frame, in hundredths; starts at 100 and is
    /// non-increasing once fading starts, never below 0.
    pub opacity: i32,
    /// Whether per-pixel transparency is honored; probed once at startup,
    /// cleared by the hide timeout when it starts the fade.
    pub compositing: bool,
    /// Lifecycle phase.
    pub phase: Phase,
    /// The one-shot hide timer is scheduled and has not fired.
    pub hide_pending: bool,
    /// The recurring fade timer is scheduled.
    pub fade_pending: bool,
    /// Percentage channel, as the token given on the command line.
    pub value: Option<String>,
    /// Caption channel.
    pub text: Option<String>,
    /// Icon channel: a theme icon name or a file path.
    pub icon: Option<String>,
}

/// One frame of the panel, as decided from the overlay state: which
/// elements are drawn, with what alpha, and the integer geometry shared by
/// the elements. Alphas are exact products of the configured opacities,
/// carried as scaled integers.
pub struct FramePlan {
    /// Background fill alpha in units of 1/10_000 (configured background
    /// opacity times overall opacity).
    pub background_alpha: i32,
    /// The caption is drawn this frame.
    pub caption: bool,
    /// Caption alpha in units of 1/1_000_000 (caption opacity times mute
    /// attenuation times overall opacity).
    pub text_alpha: i32,
    /// `Some(bars)` when the percentage channel is present and reads as an
    /// integer; the gauge element is skipped otherwise.
    pub gauge_bars: Option<i32>,
    /// An icon is looked up and painted this frame.
    pub icon: bool,
    /// Icon paint alpha in units of 1/100 (the overall opacity).
    pub icon_alpha: i32,
    /// Horizontal midpoint of the panel.
    pub center_x: i32,
    /// Baseline of the caption: one padding above the panel's bottom edge.
    pub baseline_y: i32,
}

impl Overlay {
    /// The fixed panel configuration, as set at construction.
    pub open spec fn config_ok(self) -> bool {
        &&& self.base_width == 200
        &&& self.base_height == 200
        &&& self.base_font_size == 42
        &&& self.base_line_width == 5
        &&& self.screen_margin == 64
        &&& self.base_padding == 24
        &&& self.bg_corner_radius == 8
        &&& self.num_bars == 16
        &&& self.bg_opacity == 85
        &&& self.mute_opacity == 100
        &&& self.text_opacity == 80
    }

    /// Well-formedness of a running overlay: the configuration is fixed,
    /// the opacity is a multiple of 5 in `[0, 100]` and still full while
    /// visible, compositing can only be set before the hide timeout, the
    /// hide timer can only be live before it fires, and no timer handle
    /// survives destruction.
    pub open spec fn wf(self) -> bool {
        &&& self.config_ok()
        &&& 0 <= self.opacity <= 100
        &&& self.opacity % 5 == 0
        &&& (self.phase == Phase::Visible ==> self.opacity == 100)
        &&& (self.compositing ==> self.phase == Phase::Visible)
        &&& (self.hide_pending ==> self.phase == Phase::Visible)
        &&& (self.fade_pending ==> self.phase != Phase::Destroyed)
    }

    /// A freshly constructed overlay: visible at full opacity, compositing
    /// not yet probed, no timer scheduled yet.
    pub open spec fn fresh(self) -> bool {
        &&& self.config_ok()
        &&& self.opacity == 100
        &&& self.phase == Phase::Visible
        &&& !self.compositing
        &&& !self.hide_pending
        &&& !self.fade_pending
    }

    /// A new overlay holding the three optional content channels.
    pub fn new(value: Option<String>, text: Option<String>, icon: Option<String>) -> (o: Overlay)
        ensures
            o.fresh(),
            o.wf(),
            o.value == value,
            o.text == text,
            o.icon == icon,
    {
        Overlay {
            base_width: 200,
            base_height: 200,
            base_font_size: 42,
            base_line_width: 5,
            screen_margin: 64,
            base_padding: 24,
            bg_corner_radius: 8,
            num_bars: 16,
            bg_opacity: 85,
            mute_opacity: 100,
            text_opacity: 80,
            opacity: 100,
            compositing: false,
            phase: Phase::Visible,
            hide_pending: false,
            fade_pending: false,
            value,
            text,
            icon,
        }
    }

    /// Startup step: the compositing probe and the timer schedule.
    /// Compositing becomes active exactly when the screen offers an
    /// alpha-capable visual and the display manager composites; both the
    /// one-shot hide timer and the recurring fade timer are scheduled.
    pub fn init(&mut self, has_rgba_visual: bool, is_composited: bool)
        requires
            old(self).fresh(),
        ensures
            final(self).wf(),
            *final(self) == (Overlay {
                compositing: has_rgba_visual && is_composited,
                hide_pending: true,
                fade_pending: true,
                ..*old(self)
            }),
    {
        self.compositing = has_rgba_visual && is_composited;
        self.hide_pending = true;
        self.fade_pending = true;
    }

    /// Top-left window position on the monitor with origin
    /// `(mon_x, mon_y)` and size `mon_w` x `mon_h`: the panel sits in the
    /// bottom-right corner, inset by the screen margin on both axes.
    pub fn position(&self, mon_x: i32, mon_y: i32, mon_w: i32, mon_h: i32) -> (pos: (i32, i32))
        requires
            self.wf(),
            i32::MIN <= mon_x + mon_w - self.base_width - self.screen_margin <= i32::MAX,
            i32::MIN <= mon_y + mon_h - self.base_height - self.screen_margin <= i32::MAX,
        ensures
            pos.0 == placement::spec_place(
                mon_x as int,
                mon_w as int,
                self.base_width as int,
                self.screen_margin as int,
            ),
            pos.1 == placement::spec_place(
                mon_y as int,
                mon_h as int,
                self.base_height as int,
                self.screen_margin as int,
            ),
    {
        placement::place(
            mon_x,
            mon_y,
            mon_w,
            mon_h,
            self.base_width,
            self.base_height,
            self.screen_margin,
        )
    }
}

/// The gauge element for a frame: `Some(bars)` exactly when the percentage
/// channel is present and reads as an integer, with the bar count
/// quantized and clamped to the ring.
pub open spec fn spec_gauge_element(s: Overlay) -> Option<i32> {
    match s.value {
        Option::None => Option::None,
        Option::Some(v) => if percent::parses_to_i32(v@) {
            Option::Some(
                gauge::spec_bar_count(percent::int_literal_value(v@), s.num_bars as int) as i32,
            )
        } else {
            Option::None
        },
    }
}

/// State after one fade tick: nothing changes while the overlay is
/// visible; while fading, the opacity drops by one step, and the tick that
/// would take it below zero clamps it to zero, ends the fade timer and
/// destroys the overlay.
pub open spec fn spec_fade_tick(s: Overlay) -> Overlay {
    match s.phase {
        Phase::Visible => s,
        Phase::Fading => if s.opacity - 5 >= 0 {
            Overlay { opacity: (s.opacity - 5) as i32, ..s }
        } else {
            Overlay { opacity: 0, fade_pending: false, phase: Phase::Destroyed, ..s }
        },
        Phase::Destroyed => s,
    }
}

/// The action a fade tick asks for.
pub open spec fn spec_tick_action(s: Overlay) -> TickAction {
    match s.phase {
        Phase::Visible => TickAction::Wait,
        Phase::Fading => if s.opacity - 5 >= 0 {
            TickAction::Step
        } else {
            TickAction::Finish
        },
        Phase::Destroyed => TickAction::Wait,
    }
}

/// State after the hide timeout fires: the one-shot handle is spent; with
/// compositing active the flag is cleared and the fade begins; without it
/// the fade timer is cancelled and the overlay is destroyed at once.
pub open spec fn spec_hide_timeout(s: Overlay) -> Overlay {
    if s.compositing {
        Overlay { hide_pending: false, compositing: false, phase: Phase::Fading, ..s }
    } else {
        Overlay { hide_pending: false, fade_pending: false, phase: Phase::Destroyed, ..s }
    }
}

/// The action the hide timeout asks for.
pub open spec fn spec_hide_action(s: Overlay) -> HideAction {
    if s.compositing {
        HideAction::BeginFade
    } else {
        HideAction::Destroy
    }
}

/// The state after `n` fade ticks.
pub open spec fn fade_iter(s: Overlay, n: nat) -> Overlay
    decreases n,
{
    if n == 0 {
        s
    } else {
        spec_fade_tick(fade_iter(s, (n - 1) as nat))
    }
}

/// Fade ticks from a fading state until the tick that destroys it.
pub open spec fn ticks_to_destroy(s: Overlay) -> nat {
    (s.opacity / 5 + 1) as nat
}

impl Overlay {
    /// The recurring fade timer fired. Visible: nothing changes and the
    /// timer keeps running. Fading: the opacity drops by one step and a
    /// redraw is requested; when the step would take it below zero it is
    /// clamped to exactly zero, the timer ends and the window is to be
    /// destroyed.
    pub fn cb_fadeout_timeout(&mut self) -> (action: TickAction)
        requires
            old(self).wf(),
            old(self).fade_pending,
        ensures
            final(self).wf(),
            *final(self) == spec_fade_tick(*old(self)),
            action == spec_tick_action(*old(self)),
            final(self).opacity <= old(self).opacity,
            old(self).phase == Phase::Visible ==> *final(self) == *old(self),
            final(self).phase == Phase::Destroyed ==> final(self).opacity == 0,
            action == TickAction::Finish <==> final(self).phase == Phase::Destroyed,
    {
        match self.phase {
            Phase::Visible => TickAction::Wait,
            Phase::Fading => {
                let next = self.opacity - 5;
                if next >= 0 {
                    self.opacity = next;
                    TickAction::Step
                } else {
                    self.opacity = 0;
                    self.fade_pending = false;
                    self.phase = Phase::Destroyed;
                    TickAction::Finish
                }
            },
            Phase::Destroyed => unreached(),
        }
    }

    /// The inner hide step: with compositing active, clear it and start
    /// the fade; without it, cancel the fade timer and destroy the window
    /// now. The opacity is untouched either way.
    pub fn hide_step(&mut self) -> (action: HideAction)
        requires
            old(self).wf(),
            old(self).phase == Phase::Visible,
            !old(self).hide_pending,
        ensures
            final(self).wf(),
            *final(self) == spec_hide_timeout(*old(self)),
            action == spec_hide_action(*old(self)),
            final(self).opacity == old(self).opacity,
    {
        if self.compositing {
            self.compositing = false;
            self.phase = Phase::Fading;
            HideAction::BeginFade
        } else {
            self.fade_pending = false;
            self.phase = Phase::Destroyed;
            HideAction::Destroy
        }
    }

    /// The one-shot hide timer fired, 1000 ms after creation: its handle
    /// is spent, then the hide step runs.
    pub fn cb_hide_timeout(&mut self) -> (action: HideAction)
        requires
            old(self).wf(),
            old(self).hide_pending,
        ensures
            final(self).wf(),
            *final(self) == spec_hide_timeout(*old(self)),
            action == spec_hide_action(*old(self)),
            final(self).opacity == old(self).opacity,
            !final(self).hide_pending,
    {
        self.hide_pending = false;
        self.hide_step()
    }

    /// Decides one frame of the panel from the current state: the
    /// background is always filled; the caption is drawn exactly when the
    /// text channel is present; the gauge is drawn exactly when the
    /// percentage channel is present and reads as an integer, with the
    /// quantized bar count; an icon is painted exactly when the icon
    /// channel is present. Every alpha is the exact product of the
    /// configured opacities with the overall opacity, and never negative.
    pub fn frame_plan(&self) -> (p: FramePlan)
        requires
            self.wf(),
        ensures
            p.background_alpha == self.bg_opacity * self.opacity,
            p.caption == self.text is Some,
            p.text_alpha == self.text_opacity * self.mute_opacity * self.opacity,
            p.gauge_bars == spec_gauge_element(*self),
            p.icon == self.icon is Some,
            p.icon_alpha == self.opacity,
            p.center_x == self.base_width / 2,
            p.baseline_y == self.base_height - self.base_padding,
            p.background_alpha >= 0,
            p.text_alpha >= 0,
            p.icon_alpha >= 0,
            match p.gauge_bars {
                Option::Some(bars) => 0 <= bars <= self.num_bars,
                Option::None => true,
            },
    {
        let gauge_bars: Option<i32> = match &self.value {
            Option::None => Option::None,
            Option::Some(v) => match percent::parse_i32(v.as_str()) {
                Option::Some(n) => Option::Some(gauge::bar_count(n, self.num_bars)),
                Option::None => Option::None,
            },
        };
        FramePlan {
            background_alpha: self.bg_opacity * self.opacity,
            caption: self.text.is_some(),
            text_alpha: self.text_opacity * self.mute_opacity * self.opacity,
            gauge_bars,
            icon: self.icon.is_some(),
            icon_alpha: self.opacity,
            center_x: self.base_width / 2,
            baseline_y: self.base_height - self.base_padding,
        }
    }
}

/// Icon fallback: the theme lookup's image is used when it hit; otherwise
/// the direct file load's image is used when it hit; otherwise the icon
/// element is absent from the frame and every other element still renders.
pub fn resolve_icon(theme_hit: bool, file_hit: bool) -> (src: IconSource)
    ensures
        src == if theme_hit {
            IconSource::Theme
        } else if file_hit {
            IconSource::File
        } else {
            IconSource::Absent
        },
{
    if theme_hit {
        IconSource::Theme
    } else if file_hit {
        IconSource::File
    } else {
        IconSource::Absent
    }
}

/// A fade tick preserves well-formedness and never raises the opacity.
pub proof fn lemma_tick_monotone(s: Overlay)
    requires
        s.wf(),
    ensures
        spec_fade_tick(s).wf(),
        spec_fade_tick(s).opacity <= s.opacity,
{
}

/// Every iterate of the fade tick is well formed, and the opacity is
/// monotonically non-increasing along the whole tick sequence.
pub proof fn lemma_fade_iter_wf(s: Overlay, n: nat)
    requires
        s.wf(),
    ensures
        fade_iter(s, n).wf(),
        fade_iter(s, n + 1).opacity <= fade_iter(s, n).opacity,
    decreases n,
{
    if n > 0 {
        lemma_fade_iter_wf(s, (n - 1) as nat);
        assert(fade_iter(s, n + 1) == spec_fade_tick(fade_iter(s, n)));
        lemma_tick_monotone(fade_iter(s, n));
    } else {
        lemma_tick_monotone(s);
    }
}

/// Along any tick sequence the opacity never rises: between any two
/// points of the sequence the later opacity is at most the earlier one.
pub proof fn lemma_opacity_never_rises(s: Overlay, j: nat, k: nat)
    requires
        s.wf(),
        j <= k,
    ensures
        fade_iter(s, k).opacity <= fade_iter(s, j).opacity,
    decreases k - j,
{
    if j < k {
        lemma_fade_iter_wf(s, (k - 1) as nat);
        lemma_opacity_never_rises(s, j, (k - 1) as nat);
    }
}

/// Iterating one tick past a first tick is iterating from its result.
proof fn lemma_fade_iter_shift(s: Overlay, n: nat)
    ensures
        fade_iter(spec_fade_tick(s), n) == fade_iter(s, n + 1),
    decreases n,
{
    if n > 0 {
        lemma_fade_iter_shift(s, (n - 1) as nat);
        assert(fade_iter(spec_fade_tick(s), n) == spec_fade_tick(
            fade_iter(spec_fade_tick(s), (n - 1) as nat),
        ));
        assert(fade_iter(s, n + 1) == spec_fade_tick(fade_iter(s, n)));
    } else {
        assert(fade_iter(s, 1) == spec_fade_tick(fade_iter(s, 0)));
        assert(fade_iter(s, 0) == s);
    }
}

/// While the overlay is visible, fade ticks change nothing at all: no
/// opacity step and no redraw happens before the hide timeout.
pub proof fn lemma_visible_ticks_idle(s: Overlay, n: nat)
    requires
        s.wf(),
        s.phase == Phase::Visible,
    ensures
        fade_iter(s, n) == s,
    decreases n,
{
    if n > 0 {
        lemma_visible_ticks_idle(s, (n - 1) as nat);
    }
}

/// A destroyed overlay is terminal: no timer handle survives it, a tick
/// on it changes nothing, and it asks for no redraw and no destruction.
pub proof fn lemma_destroyed_terminal(s: Overlay)
    requires
        s.wf(),
        s.phase == Phase::Destroyed,
    ensures
        !s.fade_pending,
        !s.hide_pending,
        spec_fade_tick(s) == s,
        spec_tick_action(s) == TickAction::Wait,
{
}

/// A fade tick asks for the window's destruction exactly when it is the
/// tick that enters the terminal phase, so the window is destroyed at
/// most once along any tick sequence.
pub proof fn lemma_destroy_once(s: Overlay)
    requires
        s.wf(),
    ensures
        spec_tick_action(s) == TickAction::Finish <==> (s.phase != Phase::Destroyed
            && spec_fade_tick(s).phase == Phase::Destroyed),
{
}

/// A fading overlay is destroyed on exactly the `opacity / 5 + 1`-th tick:
/// each earlier tick leaves it fading and lowers the opacity by exactly
/// one step, and the final tick clamps the opacity to exactly zero, ends
/// the fade timer and destroys the window. From full opacity that is 21
/// ticks.
pub proof fn lemma_fading_run(s: Overlay)
    requires
        s.wf(),
        s.phase == Phase::Fading,
    ensures
        forall|k: nat| k < ticks_to_destroy(s) ==> (#[trigger] fade_iter(s, k)).phase
            == Phase::Fading,
        forall|k: nat| k < ticks_to_destroy(s) ==> (#[trigger] fade_iter(s, k)).opacity == s.opacity
            - 5 * k,
        fade_iter(s, ticks_to_destroy(s)).phase == Phase::Destroyed,
        fade_iter(s, ticks_to_destroy(s)).opacity == 0,
        !fade_iter(s, ticks_to_destroy(s)).fade_pending,
        s.opacity == 100 ==> ticks_to_destroy(s) == 21,
    decreases s.opacity,
{
    if s.opacity == 0 {
        assert(fade_iter(s, 1) == spec_fade_tick(fade_iter(s, 0)));
        assert forall|k: nat| k < ticks_to_destroy(s) implies (#[trigger] fade_iter(s, k)).phase
            == Phase::Fading && fade_iter(s, k).opacity == s.opacity - 5 * k by {
            assert(k == 0);
        }
    } else {
        let s1 = spec_fade_tick(s);
        assert(s1.phase == Phase::Fading && s1.opacity == s.opacity - 5);
        lemma_fading_run(s1);
        assert(ticks_to_destroy(s1) + 1 == ticks_to_destroy(s));
        lemma_fade_iter_shift(s, ticks_to_destroy(s1));
        assert(fade_iter(s, ticks_to_destroy(s)) == fade_iter(s1, ticks_to_destroy(s1)));
        assert forall|k: nat| k < ticks_to_destroy(s) implies (#[trigger] fade_iter(s, k)).phase
            == Phase::Fading && fade_iter(s, k).opacity == s.opacity - 5 * k by {
            if k > 0 {
                lemma_fade_iter_shift(s, (k - 1) as nat);
                assert(fade_iter(s, k) == fade_iter(s1, (k - 1) as nat));
            }
        }
    }
}

/// In a non-compositing environment the whole run is: fade ticks change
/// nothing — no opacity step ever happens — and the hide timeout destroys
/// the window, with the opacity still untouched and the fade timer
/// cancelled at that same moment.
pub proof fn lemma_non_compositing_run(s: Overlay, n: nat)
    requires
        s.wf(),
        s.phase == Phase::Visible,
        !s.compositing,
    ensures
        fade_iter(s, n) == s,
        spec_hide_action(fade_iter(s, n)) == HideAction::Destroy,
        spec_hide_timeout(fade_iter(s, n)).phase == Phase::Destroyed,
        spec_hide_timeout(fade_iter(s, n)).opacity == s.opacity,
        !spec_hide_timeout(fade_iter(s, n)).fade_pending,
        !spec_hide_timeout(fade_iter(s, n)).hide_pending,
{
    lemma_visible_ticks_idle(s, n);
}

/// In a compositing environment the whole run is: fade ticks before the
/// hide timeout change nothing; the hide timeout starts the fade at full
/// opacity; and exactly 21 further ticks destroy the window, the last one
/// clamping the opacity to exactly zero with both timer handles spent.
/// With the hide timer at 1000 ms and a fade tick every 30 ms, destruction
/// therefore comes no earlier than 1000 ms plus 21 ticks of 30 ms.
pub proof fn lemma_compositing_run(s: Overlay, n: nat)
    requires
        s.wf(),
        s.phase == Phase::Visible,
        s.compositing,
    ensures
        fade_iter(s, n) == s,
        spec_hide_action(s) == HideAction::BeginFade,
        spec_hide_timeout(s).phase == Phase::Fading,
        spec_hide_timeout(s).opacity == 100,
        ticks_to_destroy(spec_hide_timeout(s)) == 21,
        forall|k: nat| k < 21 ==> (#[trigger] fade_iter(spec_hide_timeout(s), k)).phase
            == Phase::Fading,
        fade_iter(spec_hide_timeout(s), 21).phase == Phase::Destroyed,
        fade_iter(spec_hide_timeout(s), 21).opacity == 0,
        !fade_iter(spec_hide_timeout(s), 21).fade_pending,
        !fade_iter(spec_hide_timeout(s), 21).hide_pending,
{
    lemma_visible_ticks_idle(s, n);
    let f = spec_hide_timeout(s);
    assert(f.wf());
    lemma_fading_run(f);
    assert(fade_iter(f, 21).phase == Phase::Destroyed);
    lemma_fade_iter_wf(f, 21);
}

} // verus!
