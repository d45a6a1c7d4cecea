use vstd::prelude::*;
use vstd::string::StringExecFns;
use crate::app::{App, spec_remaining};
use crate::text::{dec_digits, format_duration, spec_format_duration, u64_to_string};

verus! {

/// The closed set of layout variants, decided once per render call.
#[derive(Debug, Clone, Copy, PartialEq, Eq, Structural)]
pub enum LayoutKind {
    /// Names region, countdown gauge, help region.
    WithTimer,
    /// Names region and help region only.
    WithoutTimer,
}

/// One rendered roster line; the selected person's line is highlighted.
#[derive(Debug, Clone)]
pub struct NameLine {
    pub text: String,
    pub highlighted: bool,
}

/// The seven-band urgency gradient over the fraction of meeting time left,
/// highest fraction first. Boundaries belong to the lower band.
#[derive(Debug, Clone, Copy, PartialEq, Eq, Structural)]
pub enum UrgencyBand {
    /// More than 75% left.
    Plenty,
    /// More than 50% left.
    Comfortable,
    /// More than 35% left.
    Steady,
    /// More than 25% left.
    Caution,
    /// More than 15% left.
    Warning,
    /// More than 5% left.
    Urgent,
    /// 5% or less left.
    Critical,
}

/// The hourglass icon next to the remaining time.
#[derive(Debug, Clone, Copy, PartialEq, Eq, Structural)]
pub enum GaugeIcon {
    /// Sand still flowing: more than 180 seconds left.
    Filling,
    /// 180 seconds or less left.
    Emptying,
}

/// Label text color, chosen against the detected terminal background.
#[derive(Debug, Clone, Copy, PartialEq, Eq, Structural)]
pub enum TextColor {
    White,
    Black,
}

/// The countdown gauge, as plain values for the drawing layer.
#[derive(Debug)]
pub struct TimerRegion {
    /// Whole percent of meeting time left, 0 to 100.
    pub percent: u16,
    pub band: UrgencyBand,
    /// Fill-bar color as an RGB triple, determined by the band.
    pub bar_color: (u8, u8, u8),
    pub icon: GaugeIcon,
    /// `"<icon> <formatted remaining> left"`.
    pub label: String,
    pub label_color: TextColor,
    /// Label backdrop as an RGB triple, so the label stays readable as the
    /// fill bar passes under it.
    pub label_background: (u8, u8, u8),
}

/// Everything one frame shows, as plain values: the drawing layer maps this
/// to widgets and performs no decision of its own.
#[derive(Debug)]
pub struct RenderPlan {
    pub layout: LayoutKind,
    pub title: String,
    pub lines: Vec<NameLine>,
    pub selected: usize,
    /// Present exactly when the configuration does not hide the timer.
    pub timer: Option<TimerRegion>,
    pub help: &'static str,
}

/// The band the fraction `remaining / total` falls in; a zero total counts
/// as nothing left. Strict comparisons: a boundary fraction belongs to the
/// band below it.
pub open spec fn spec_band(remaining: int, total: int) -> UrgencyBand {
    if total <= 0 {
        UrgencyBand::Critical
    } else if remaining * 4 > total * 3 {
        UrgencyBand::Plenty
    } else if remaining * 2 > total {
        UrgencyBand::Comfortable
    } else if remaining * 20 > total * 7 {
        UrgencyBand::Steady
    } else if remaining * 4 > total {
        UrgencyBand::Caution
    } else if remaining * 20 > total * 3 {
        UrgencyBand::Warning
    } else if remaining * 20 > total {
        UrgencyBand::Urgent
    } else {
        UrgencyBand::Critical
    }
}

/// The gauge band for `remaining_secs` out of `total_secs`.
pub fn gauge_band(remaining_secs: u64, total_secs: u64) -> (b: UrgencyBand)
    ensures
        b == spec_band(remaining_secs as int, total_secs as int),
{
    let r = remaining_secs as u128;
    let t = total_secs as u128;
    if t == 0 {
        UrgencyBand::Critical
    } else if r * 4 > t * 3 {
        UrgencyBand::Plenty
    } else if r * 2 > t {
        UrgencyBand::Comfortable
    } else if r * 20 > t * 7 {
        UrgencyBand::Steady
    } else if r * 4 > t {
        UrgencyBand::Caution
    } else if r * 20 > t * 3 {
        UrgencyBand::Warning
    } else if r * 20 > t {
        UrgencyBand::Urgent
    } else {
        UrgencyBand::Critical
    }
}

/// The RGB color of each urgency band, bright green down to deep red.
pub open spec fn spec_band_color(b: UrgencyBand) -> (u8, u8, u8) {
    match b {
        UrgencyBand::Plenty => (34u8, 197u8, 94u8),
        UrgencyBand::Comfortable => (132u8, 204u8, 22u8),
        UrgencyBand::Steady => (163u8, 163u8, 0u8),
        UrgencyBand::Caution => (234u8, 179u8, 8u8),
        UrgencyBand::Warning => (249u8, 115u8, 22u8),
        UrgencyBand::Urgent => (239u8, 68u8, 68u8),
        UrgencyBand::Critical => (220u8, 38u8, 38u8),
    }
}

/// The fill-bar color for a band.
pub fn band_color(b: UrgencyBand) -> (c: (u8, u8, u8))
    ensures
        c == spec_band_color(b),
{
    match b {
        UrgencyBand::Plenty => (34, 197, 94),
        UrgencyBand::Comfortable => (132, 204, 22),
        UrgencyBand::Steady => (163, 163, 0),
        UrgencyBand::Caution => (234, 179, 8),
        UrgencyBand::Warning => (249, 115, 22),
        UrgencyBand::Urgent => (239, 68, 68),
        UrgencyBand::Critical => (220, 38, 38),
    }
}

/// The whole percent of time left: `remaining * 100 / total`, rounded down;
/// zero when the total is zero.
pub open spec fn spec_percent(remaining: int, total: int) -> int {
    if total <= 0 {
        0
    } else {
        remaining * 100 / total
    }
}

/// The gauge's fill percentage.
pub fn gauge_percent(remaining_secs: u64, total_secs: u64) -> (p: u16)
    requires
        remaining_secs <= total_secs,
    ensures
        p == spec_percent(remaining_secs as int, total_secs as int),
        p <= 100,
{
    if total_secs == 0 {
        0
    } else {
        let r = remaining_secs as u128;
        let t = total_secs as u128;
        let p = r * 100 / t;
        proof {
            assert((r as int) * 100 / (t as int) <= 100) by (nonlinear_arith)
                requires
                    0 < t as int,
                    r as int <= t as int,
            ;
        }
        p as u16
    }
}

/// The icon for the time left: flowing sand above 180 seconds, a drained
/// hourglass at or below it.
pub fn icon_for(remaining_secs: u64) -> (i: GaugeIcon)
    ensures
        i is Filling <==> remaining_secs > 180,
{
    if remaining_secs > 180 {
        GaugeIcon::Filling
    } else {
        GaugeIcon::Emptying
    }
}

/// The glyph for each icon.
pub open spec fn spec_icon_str(i: GaugeIcon) -> Seq<char> {
    match i {
        GaugeIcon::Filling => "⏳"@,
        GaugeIcon::Emptying => "⌛"@,
    }
}

/// The icon's glyph.
pub fn icon_str(i: GaugeIcon) -> (r: &'static str)
    ensures
        r@ == spec_icon_str(i),
{
    match i {
        GaugeIcon::Filling => "⏳",
        GaugeIcon::Emptying => "⌛",
    }
}

/// The gauge label: the icon, the formatted remaining time, and "left".
pub open spec fn spec_label(remaining_secs: nat) -> Seq<char> {
    spec_icon_str(
        if remaining_secs > 180 {
            GaugeIcon::Filling
        } else {
            GaugeIcon::Emptying
        },
    ) + seq![' '] + spec_format_duration(remaining_secs) + seq![' ', 'l', 'e', 'f', 't']
}

/// Builds the gauge label for the time left.
pub fn gauge_label(remaining_secs: u64) -> (s: String)
    ensures
        s@ == spec_label(remaining_secs as nat),
{
    let icon = icon_for(remaining_secs);
    let mut s = icon_str(icon).to_owned();
    s.append(" ");
    s.append(format_duration(remaining_secs).as_str());
    s.append(" left");
    proof {
        reveal_strlit(" ");
        reveal_strlit(" left");
        assert(s@ =~= spec_label(remaining_secs as nat));
    }
    s
}

/// What a well-formed countdown gauge region holds for `remaining_secs` of
/// `total_secs` on the detected background.
pub open spec fn timer_region_ok(
    t: TimerRegion,
    remaining_secs: int,
    total_secs: int,
    is_dark: bool,
) -> bool {
    &&& t.percent == spec_percent(remaining_secs, total_secs)
    &&& t.band == spec_band(remaining_secs, total_secs)
    &&& t.bar_color == spec_band_color(spec_band(remaining_secs, total_secs))
    &&& (t.icon is Filling <==> remaining_secs > 180)
    &&& t.label@ == spec_label(remaining_secs as nat)
    &&& t.label_color == (if is_dark {
        TextColor::White
    } else {
        TextColor::Black
    })
    &&& t.label_background == (if is_dark {
        (40u8, 40u8, 40u8)
    } else {
        (240u8, 240u8, 240u8)
    })
}

/// Builds the countdown gauge region from whole seconds of time left.
pub fn timer_region(remaining_ms: u64, total_ms: u64, is_dark: bool) -> (t: TimerRegion)
    requires
        remaining_ms <= total_ms,
    ensures
        timer_region_ok(t, (remaining_ms / 1000) as int, (total_ms / 1000) as int, is_dark),
{
    let remaining_secs = remaining_ms / 1000;
    let total_secs = total_ms / 1000;
    proof {
        vstd::arithmetic::div_mod::lemma_div_is_ordered(
            remaining_ms as int,
            total_ms as int,
            1000,
        );
    }
    let band = gauge_band(remaining_secs, total_secs);
    TimerRegion {
        percent: gauge_percent(remaining_secs, total_secs),
        band,
        bar_color: band_color(band),
        icon: icon_for(remaining_secs),
        label: gauge_label(remaining_secs),
        label_color: if is_dark {
            TextColor::White
        } else {
            TextColor::Black
        },
        label_background: if is_dark {
            (40, 40, 40)
        } else {
            (240, 240, 240)
        },
    }
}

/// The duration suffix of a roster line: the person's accumulated time in
/// parentheses once it reaches five seconds, nothing below that.
pub open spec fn spec_timer_suffix(timer_ms: u64) -> Seq<char> {
    if timer_ms >= 5000 {
        seq![' ', '('] + spec_format_duration((timer_ms / 1000) as nat) + seq![')']
    } else {
        Seq::<char>::empty()
    }
}

/// One roster line: `"<1-based position>:  <name><suffix>"`.
pub open spec fn spec_name_line(pos1: nat, name: Seq<char>, timer_ms: u64) -> Seq<char> {
    dec_digits(pos1) + seq![':', ' ', ' '] + name + spec_timer_suffix(timer_ms)
}

/// Builds one roster line.
fn name_line(pos1: u64, name: &String, timer_ms: u64) -> (s: String)
    ensures
        s@ == spec_name_line(pos1 as nat, name@, timer_ms),
{
    let mut s = u64_to_string(pos1);
    s.append(":  ");
    s.append(name.as_str());
    if timer_ms >= 5000 {
        s.append(" (");
        s.append(format_duration(timer_ms / 1000).as_str());
        s.append(")");
    }
    proof {
        reveal_strlit(":  ");
        reveal_strlit(" (");
        reveal_strlit(")");
        assert(s@ =~= spec_name_line(pos1 as nat, name@, timer_ms));
    }
    s
}

/// Builds the names region: one line per roster entry, the selected one
/// highlighted.
pub fn names_lines(app: &App) -> (lines: Vec<NameLine>)
    requires
        app.wf(),
    ensures
        lines@.len() == app.names@.len(),
        forall|i: int|
            0 <= i < lines@.len() ==> {
                &&& (#[trigger] lines@[i]).text@ == spec_name_line(
                    (i + 1) as nat,
                    app.names@[i]@,
                    app.per_person_timers@[i],
                )
                &&& lines@[i].highlighted == (i == app.current_person_index as int)
            },
{
    let mut lines: Vec<NameLine> = Vec::new();
    let n = app.names.len();
    let mut i: usize = 0;
    while i < n
        invariant
            app.wf(),
            n == app.names@.len(),
            i <= n,
            lines@.len() == i,
            forall|j: int|
                0 <= j < i ==> {
                    &&& (#[trigger] lines@[j]).text@ == spec_name_line(
                        (j + 1) as nat,
                        app.names@[j]@,
                        app.per_person_timers@[j],
                    )
                    &&& lines@[j].highlighted == (j == app.current_person_index as int)
                },
        decreases n - i,
    {
        let pos1 = (i as u64) + 1;
        let text = name_line(pos1, &app.names[i], app.per_person_timers[i]);
        lines.push(NameLine { text, highlighted: i == app.current_person_index });
        i = i + 1;
    }
    lines
}

/// The centered shortcut help line; the reset shortcut is omitted when the
/// timer is hidden, since it would have no visible effect.
pub fn help_text(hide_timer: bool) -> (r: &'static str)
    ensures
        hide_timer ==> r@ == "<Ctrl+N> Reshuffle names | <Tab/↓> Next | <↑> Previous | <Q> Quit"@,
        !hide_timer ==> r@
            == "<Ctrl+R> Reset timer | <Ctrl+N> Reshuffle names | <Tab/↓> Next | <↑> Previous | <Q> Quit"@,
{
    if hide_timer {
        "<Ctrl+N> Reshuffle names | <Tab/↓> Next | <↑> Previous | <Q> Quit"
    } else {
        "<Ctrl+R> Reset timer | <Ctrl+N> Reshuffle names | <Tab/↓> Next | <↑> Previous | <Q> Quit"
    }
}

/// The presenter: a read-only view over the session state.
pub struct UI<'a> {
    pub app: &'a App,
}

impl<'a> UI<'a> {
    pub fn new(app: &'a App) -> (u: UI<'a>)
        ensures
            u.app == app,
    {
        UI { app }
    }

    /// The pure mapping from session state and clock reading to one frame's
    /// visual regions. Mutates nothing; the drawing layer consumes the plan.
    pub fn render(&self, now_ms: u64) -> (plan: RenderPlan)
        requires
            self.app.wf(),
            now_ms >= self.app.timer_start_ms,
        ensures
            plan.title@ == self.app.config.title@,
            plan.selected == self.app.current_person_index,
            plan.lines@.len() == self.app.names@.len(),
            forall|i: int|
                0 <= i < plan.lines@.len() ==> {
                    &&& (#[trigger] plan.lines@[i]).text@ == spec_name_line(
                        (i + 1) as nat,
                        self.app.names@[i]@,
                        self.app.per_person_timers@[i],
                    )
                    &&& plan.lines@[i].highlighted == (i
                        == self.app.current_person_index as int)
                },
            self.app.config.hide_timer ==> plan.layout is WithoutTimer && plan.timer is None,
            !self.app.config.hide_timer ==> plan.layout is WithTimer && (plan.timer matches Some(t)
                && timer_region_ok(
                t,
                spec_remaining(
                    self.app.config.duration_ms as int,
                    self.app.timer_start_ms as int,
                    now_ms as int,
                ) / 1000,
                self.app.config.duration_ms as int / 1000,
                self.app.is_dark_background,
            )),
            self.app.config.hide_timer ==> plan.help@
                == "<Ctrl+N> Reshuffle names | <Tab/↓> Next | <↑> Previous | <Q> Quit"@,
            !self.app.config.hide_timer ==> plan.help@
                == "<Ctrl+R> Reset timer | <Ctrl+N> Reshuffle names | <Tab/↓> Next | <↑> Previous | <Q> Quit"@,
    {
        let lines = names_lines(self.app);
        let help = help_text(self.app.config.hide_timer);
        let title = self.app.config.title.clone();
        let selected = self.app.current_person_index;
        if self.app.config.hide_timer {
            RenderPlan { layout: LayoutKind::WithoutTimer, title, lines, selected, timer: None, help }
        } else {
            let remaining_ms = self.app.remaining_time(now_ms);
            let timer = timer_region(
                remaining_ms,
                self.app.config.duration_ms,
                self.app.is_dark_background,
            );
            RenderPlan {
                layout: LayoutKind::WithTimer,
                title,
                lines,
                selected,
                timer: Some(timer),
                help,
            }
        }
    }
}

} // verus!
