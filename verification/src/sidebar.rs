//! The two sidebars below the board: the live-game one (opponent, turn,
//! back and game-actions buttons) and the puzzle one (move result, rating
//! and themes, back, hint, next-puzzle and settings buttons). Each repaints
//! only the text bands whose content changed.

use crate::board_api::Turn;
use crate::events::{rect_contains, rect_fits, AppEvent, Rectangle, RectangleExt, TouchEvent, TouchKind};
use crate::puzzle::PuzzleStatus;
use crate::text::{push_signed, push_str, signed_decimal, string_of};
use crate::widgets::{Button, IconButton, ICON_BUTTON_SIZE};
use vstd::prelude::*;

verus! {

/// An `i16` value.
pub open spec fn is_i16(v: int) -> bool {
    i16::MIN <= v <= i16::MAX
}

/// Halving as `i16` division does it, toward zero.
pub open spec fn half(v: int) -> int {
    if v >= 0 {
        v / 2
    } else {
        -((-v) / 2)
    }
}

/// The x at which content `w` wide sits centred in `area`.
pub open spec fn centered_x(area: Rectangle, w: int) -> int {
    area.x + half((area.width as i16) - w)
}

/// One step of painting a sidebar.
#[derive(Debug, Clone, Copy, PartialEq, Eq, Structural)]
pub enum SidebarPaint {
    /// Clear the whole area to white and draw its border.
    Frame,
    /// Clear a text band to white.
    ClearBand(Rectangle),
    /// Draw the first text line (opponent, or move result).
    FirstLine,
    /// Draw the second text block (turn status, or rating and themes).
    SecondLine,
    /// Draw the buttons.
    Buttons,
}

/// The two rectangles do not overlap.
pub open spec fn rects_disjoint(a: Rectangle, b: Rectangle) -> bool {
    a.x + a.width <= b.x || b.x + b.width <= a.x || a.y + a.height <= b.y || b.y + b.height <= a.y
}

/// On the full-width live-game sidebar, the text bands that get cleared
/// and repainted never overlap the buttons, so a text refresh leaves the
/// buttons alone.
pub proof fn lemma_sidebar_bands_clear_buttons(s: SidebarWidget, area: Rectangle, status: Seq<char>)
    requires
        s.is_new_showing(area, status),
        area.width == 1072,
        sidebar_layout_fits(area),
    ensures
        rects_disjoint(s.opponent_band, s.back_button.rect),
        rects_disjoint(s.opponent_band, s.settings_button.rect),
        rects_disjoint(s.status_band, s.back_button.rect),
        rects_disjoint(s.status_band, s.settings_button.rect),
{
}

/// On the full-width puzzle sidebar, the status and info bands never
/// overlap any of the four buttons.
pub proof fn lemma_puzzle_bands_clear_buttons(s: PuzzleSidebarWidget, area: Rectangle)
    requires
        s.is_new(area),
        area.width == 1072,
        area.height == 376,
        puzzle_sidebar_layout_fits(area),
    ensures
        rects_disjoint(s.status_band, s.back_button.rect),
        rects_disjoint(s.status_band, s.hint_button.rect),
        rects_disjoint(s.status_band, s.settings_button.rect),
        rects_disjoint(s.status_band, s.next_button.rect),
        rects_disjoint(s.info_band, s.back_button.rect),
        rects_disjoint(s.info_band, s.hint_button.rect),
        rects_disjoint(s.info_band, s.settings_button.rect),
        rects_disjoint(s.info_band, s.next_button.rect),
{
}

/// The text shown for a turn.
pub open spec fn turn_text(turn: Turn) -> Seq<char> {
    match turn {
        Turn::Playing => "Your turn"@,
        Turn::Waiting => "Waiting for opponent"@,
        Turn::Over { winner: Some(w) } => w@ + " won!"@,
        Turn::Over { winner: None } => "Game over"@,
    }
}

/// Sidebar below the board on the live-game screen.
pub struct SidebarWidget {
    pub area: Rectangle,
    pub back_button: IconButton,
    pub settings_button: IconButton,
    pub turn_status: String,
    /// Opponent display name (a username, or "AI").
    pub opponent: String,
    /// The server rejected the last move; shown until the next turn update.
    pub rejected: bool,
    pub opponent_band: Rectangle,
    pub status_band: Rectangle,
    pub needs_full_repaint: bool,
    pub drawn_opponent: Option<String>,
    pub drawn_status: Option<(bool, String)>,
}

/// The layout computations of `SidebarWidget::new` stay within `i16`.
pub open spec fn sidebar_layout_fits(area: Rectangle) -> bool {
    let w = (area.width as i16) as int;
    let h = (area.height as i16) as int;
    &&& is_i16(h - 134)
    &&& is_i16(area.y + half(h - 134))
    &&& is_i16(area.x + 24)
    &&& is_i16(area.x + w)
    &&& is_i16(area.x + w - 134)
    &&& is_i16(area.x + w - 134 - 24)
    &&& is_i16(w - 640)
    &&& is_i16(area.x + half(w - 640))
    &&& is_i16(w - 560)
    &&& is_i16(area.x + half(w - 560))
    &&& is_i16(area.y + 62)
    &&& is_i16(area.y + 150)
}

impl SidebarWidget {
    /// The buttons' far edges are `i16` values, so they can be hit-tested.
    pub open spec fn touch_ready(self) -> bool {
        rect_fits(self.back_button.rect) && rect_fits(self.settings_button.rect)
    }

    /// The event a touch raises: a release on the back button leaves the
    /// game, on the settings button it opens the game actions.
    pub open spec fn touch_event(self, touch: TouchEvent) -> Option<AppEvent> {
        if touch.kind != TouchKind::Up {
            None
        } else if rect_contains(self.back_button.rect, touch.x, touch.y) {
            Some(AppEvent::ExitToMenu)
        } else if rect_contains(self.settings_button.rect, touch.x, touch.y) {
            Some(AppEvent::OpenGameActions)
        } else {
            None
        }
    }

    /// The opponent line, `vs <name>`; nothing while the opponent is
    /// unknown.
    pub fn opponent_line(&self) -> (r: Option<String>)
        ensures
            match r {
                None => self.opponent@.len() == 0,
                Some(l) => self.opponent@.len() > 0 && l@ == "vs "@ + self.opponent@,
            },
    {
        if self.opponent.as_str().unicode_len() == 0 {
            return None;
        }
        let mut l = string_of("vs ");
        push_str(&mut l, self.opponent.as_str());
        Some(l)
    }

    /// The status line, and whether a cross precedes it: a refused move
    /// shows "Try something else" with a cross, as the puzzle screen does;
    /// otherwise the turn is shown.
    pub fn status_line_text(&self) -> (r: (String, bool))
        ensures
            r.0@ == if self.rejected {
                "Try something else"@
            } else {
                self.turn_status@
            },
            r.1 == self.rejected,
    {
        if self.rejected {
            (string_of("Try something else"), true)
        } else {
            (string_of(self.turn_status.as_str()), false)
        }
    }

    /// `next` is this sidebar showing `turn`, with the rejected-move notice
    /// cleared and all else kept.
    pub open spec fn turn_shown(self, next: Self, turn: Turn) -> bool {
        &&& next == (SidebarWidget { turn_status: next.turn_status, rejected: false, ..self })
        &&& next.turn_status@ == turn_text(turn)
    }

    /// `self` is the sidebar `new` builds for `area`.
    pub open spec fn is_new(self, area: Rectangle) -> bool {
        self.is_new_showing(area, "Loading…"@)
    }

    /// `self` is the sidebar `new` builds for `area`, but showing `status`
    /// as the turn.
    pub open spec fn is_new_showing(self, area: Rectangle, status: Seq<char>) -> bool {
        &&& self.area == area
        &&& self.back_button.rect == (Rectangle {
            x: (area.x + 24) as i16,
            y: (area.y + half((area.height as i16) - 134)) as i16,
            width: ICON_BUTTON_SIZE,
            height: ICON_BUTTON_SIZE,
        })
        &&& self.back_button.asset@ == "back-nav.png"@
        &&& self.settings_button.rect == (Rectangle {
            x: (area.x + (area.width as i16) - 134 - 24) as i16,
            y: (area.y + half((area.height as i16) - 134)) as i16,
            width: ICON_BUTTON_SIZE,
            height: ICON_BUTTON_SIZE,
        })
        &&& self.settings_button.asset@ == "settings.png"@
        &&& self.settings_button.glyph_size == 90
        &&& self.turn_status@ == status
        &&& self.opponent@ == Seq::<char>::empty()
        &&& !self.rejected
        &&& self.opponent_band == (Rectangle {
            x: centered_x(area, 640) as i16,
            y: (area.y + 62) as i16,
            width: 640,
            height: 56,
        })
        &&& self.status_band == (Rectangle {
            x: centered_x(area, 560) as i16,
            y: (area.y + 150) as i16,
            width: 560,
            height: 60,
        })
        &&& self.needs_full_repaint
        &&& self.drawn_opponent is None
        &&& self.drawn_status is None
    }

    pub fn new(area: Rectangle) -> (r: Self)
        requires
            sidebar_layout_fits(area),
        ensures
            r.is_new(area),
    {
        let margin: i16 = 24;
        let btn_y = area.y + (area.height as i16 - ICON_BUTTON_SIZE as i16) / 2;
        let x640 = area.x + (area.width as i16 - 640i16) / 2;
        let x560 = area.x + (area.width as i16 - 560i16) / 2;
        SidebarWidget {
            area,
            back_button: IconButton::new(area.x + margin, btn_y, "back-nav.png"),
            settings_button: IconButton::new(
                area.x + area.width as i16 - ICON_BUTTON_SIZE as i16 - margin,
                btn_y,
                "settings.png",
            ).with_glyph_size(90),
            turn_status: string_of("Loading…"),
            opponent: String::new(),
            rejected: false,
            opponent_band: Rectangle::new(x640, area.y + 62, 640, 56),
            status_band: Rectangle::new(x560, area.y + 150, 560, 60),
            needs_full_repaint: true,
            drawn_opponent: None,
            drawn_status: None,
        }
    }

    /// Show `turn`; a fresh turn supersedes a rejected-move notice.
    pub fn set_turn(&mut self, turn: Turn)
        ensures
            old(self).turn_shown(*final(self), turn),
    {
        self.rejected = false;
        self.turn_status = match turn {
            Turn::Playing => string_of("Your turn"),
            Turn::Waiting => string_of("Waiting for opponent"),
            Turn::Over { winner: Some(w) } => {
                let mut s = string_of(w.as_str());
                push_str(&mut s, " won!");
                s
            },
            Turn::Over { winner: None } => string_of("Game over"),
        };
    }

    pub fn set_opponent(&mut self, name: String)
        ensures
            *final(self) == (SidebarWidget { opponent: name, ..*old(self) }),
    {
        self.opponent = name;
    }

    /// Flag the last move as rejected by the server; cleared by the next
    /// `set_turn`.
    pub fn set_move_rejected(&mut self)
        ensures
            *final(self) == (SidebarWidget { rejected: true, ..*old(self) }),
    {
        self.rejected = true;
    }

    /// A touch release on the back button leaves the game; on the settings
    /// button it opens the game actions.
    pub fn handle_touch(&self, touch: &TouchEvent) -> (r: Option<AppEvent>)
        requires
            self.touch_ready(),
        ensures
            r == self.touch_event(*touch),
    {
        if touch.kind != TouchKind::Up {
            return None;
        }
        if self.back_button.contains(touch.x, touch.y) {
            return Some(AppEvent::ExitToMenu);
        }
        if self.settings_button.contains(touch.x, touch.y) {
            return Some(AppEvent::OpenGameActions);
        }
        None
    }

    /// Force a full repaint next time.
    pub fn invalidate(&mut self)
        ensures
            *final(self) == (SidebarWidget { needs_full_repaint: true, ..*old(self) }),
    {
        self.needs_full_repaint = true;
    }

    /// The opponent line differs from what was last painted.
    pub open spec fn opponent_changed(self) -> bool {
        match self.drawn_opponent {
            Some(d) => d@ != self.opponent@,
            None => true,
        }
    }

    /// The status line (rejected flag and turn text) differs from what was
    /// last painted.
    pub open spec fn status_changed(self) -> bool {
        match self.drawn_status {
            Some((rej, text)) => rej != self.rejected || text@ != self.turn_status@,
            None => true,
        }
    }

    /// What the next render paints: on a full repaint the frame, both lines
    /// and the buttons; otherwise only the lines whose content changed, each
    /// after clearing its band.
    pub open spec fn render_plan(self) -> Seq<SidebarPaint> {
        let full = self.needs_full_repaint;
        (if full {
            seq![SidebarPaint::Frame]
        } else {
            Seq::empty()
        }) + (if full {
            seq![SidebarPaint::FirstLine]
        } else if self.opponent_changed() {
            seq![SidebarPaint::ClearBand(self.opponent_band), SidebarPaint::FirstLine]
        } else {
            Seq::empty()
        }) + (if full {
            seq![SidebarPaint::SecondLine]
        } else if self.status_changed() {
            seq![SidebarPaint::ClearBand(self.status_band), SidebarPaint::SecondLine]
        } else {
            Seq::empty()
        }) + (if full {
            seq![SidebarPaint::Buttons]
        } else {
            Seq::empty()
        })
    }

    /// Work out what to paint and record it as painted.
    pub fn render(&mut self) -> (r: Vec<SidebarPaint>)
        ensures
            r@ == old(self).render_plan(),
            !final(self).needs_full_repaint,
            !final(self).opponent_changed(),
            !final(self).status_changed(),
            final(self).area == old(self).area,
            final(self).back_button == old(self).back_button,
            final(self).settings_button == old(self).settings_button,
            final(self).turn_status == old(self).turn_status,
            final(self).opponent == old(self).opponent,
            final(self).rejected == old(self).rejected,
            final(self).opponent_band == old(self).opponent_band,
            final(self).status_band == old(self).status_band,
    {
        let mut plan: Vec<SidebarPaint> = Vec::new();
        let full = self.needs_full_repaint;
        if full {
            plan.push(SidebarPaint::Frame);
        }
        let opponent_same = match &self.drawn_opponent {
            Some(d) => *d == self.opponent,
            None => false,
        };
        if full || !opponent_same {
            if !full {
                plan.push(SidebarPaint::ClearBand(self.opponent_band));
            }
            plan.push(SidebarPaint::FirstLine);
            self.drawn_opponent = Some(self.opponent.clone());
        }
        let status_same = match &self.drawn_status {
            Some((rej, text)) => *rej == self.rejected && *text == self.turn_status,
            None => false,
        };
        if full || !status_same {
            if !full {
                plan.push(SidebarPaint::ClearBand(self.status_band));
            }
            plan.push(SidebarPaint::SecondLine);
            self.drawn_status = Some((self.rejected, self.turn_status.clone()));
        }
        if full {
            plan.push(SidebarPaint::Buttons);
            self.needs_full_repaint = false;
        }
        assert(plan@ =~= old(self).render_plan());
        plan
    }
}


/// Which glyph, if any, precedes the puzzle status line.
#[derive(Debug, Clone, Copy, PartialEq, Eq, Structural)]
pub enum StatusIcon {
    NoIcon,
    Check,
    Cross,
}

/// Status line text and icon for a puzzle status.
pub open spec fn status_line(status: PuzzleStatus) -> (Seq<char>, StatusIcon) {
    match status {
        PuzzleStatus::Solving => ("Find the best move"@, StatusIcon::NoIcon),
        PuzzleStatus::Correct => ("Correct move"@, StatusIcon::Check),
        PuzzleStatus::Wrong => ("Try something else"@, StatusIcon::Cross),
        PuzzleStatus::Solved => ("Finished Puzzle"@, StatusIcon::Check),
    }
}

/// `parts` joined with `sep` between consecutive parts.
pub open spec fn joined(parts: Seq<Seq<char>>, sep: Seq<char>) -> Seq<char>
    decreases parts.len(),
{
    if parts.len() == 0 {
        Seq::empty()
    } else if parts.len() == 1 {
        parts[0]
    } else {
        joined(parts.drop_last(), sep) + sep + parts.last()
    }
}

/// At most this many themes are shown, so the line fits its band.
pub const MAX_THEMES: usize = 4;

/// The themes line: the first `MAX_THEMES` themes joined by ` · `.
pub open spec fn themes_line(themes: Seq<String>) -> Seq<char> {
    joined(
        themes.take(
            if themes.len() < MAX_THEMES {
                themes.len() as int
            } else {
                MAX_THEMES as int
            },
        ).map_values(|t: String| t@),
        " · "@,
    )
}

/// Sidebar below the board on the puzzle screen.
pub struct PuzzleSidebarWidget {
    pub area: Rectangle,
    pub back_button: IconButton,
    pub hint_button: IconButton,
    pub settings_button: IconButton,
    pub next_button: Button,
    pub status_text: String,
    pub status_icon: StatusIcon,
    /// Puzzle rating, once a puzzle has loaded.
    pub rating: Option<i32>,
    pub themes: String,
    pub status_band: Rectangle,
    pub info_band: Rectangle,
    pub needs_full_repaint: bool,
    pub drawn_status: Option<(String, StatusIcon)>,
    pub drawn_info: Option<(Option<i32>, String)>,
}

/// The layout computations of `PuzzleSidebarWidget::new` stay within `i16`.
pub open spec fn puzzle_sidebar_layout_fits(area: Rectangle) -> bool {
    let w = (area.width as i16) as int;
    let h = (area.height as i16) as int;
    &&& is_i16(area.y + h)
    &&& is_i16(area.y + h - 134)
    &&& is_i16(area.y + h - 134 - 18)
    &&& is_i16(w - 400)
    &&& is_i16(area.x + half(w - 400))
    &&& is_i16(area.y + h - 134 - 18 + 25)
    &&& is_i16(area.x + w)
    &&& is_i16(area.x + w - 134)
    &&& is_i16(area.x + w - 134 - 24)
    &&& is_i16(area.x + 24)
    &&& is_i16(area.y + h - 134 - 18 - 134)
    &&& is_i16(area.y + h - 134 - 18 - 134 - 12)
    &&& is_i16(w - 600)
    &&& is_i16(area.x + half(w - 600))
    &&& is_i16(area.y + 32)
    &&& is_i16(area.y + 120)
}

impl PuzzleSidebarWidget {
    /// The buttons' far edges are `i16` values, so they can be hit-tested.
    pub open spec fn touch_ready(self) -> bool {
        &&& rect_fits(self.back_button.rect)
        &&& rect_fits(self.hint_button.rect)
        &&& rect_fits(self.settings_button.rect)
        &&& rect_fits(self.next_button.rect)
    }

    /// The event a touch raises: a release on back leaves the puzzle, on
    /// hint marks the piece to move, on settings opens the puzzle settings,
    /// and on "Next puzzle" fetches another.
    pub open spec fn touch_event(self, touch: TouchEvent) -> Option<AppEvent> {
        if touch.kind != TouchKind::Up {
            None
        } else if rect_contains(self.back_button.rect, touch.x, touch.y) {
            Some(AppEvent::ExitToMenu)
        } else if rect_contains(self.hint_button.rect, touch.x, touch.y) {
            Some(AppEvent::ShowPuzzleHint)
        } else if rect_contains(self.settings_button.rect, touch.x, touch.y) {
            Some(AppEvent::OpenPuzzleSettings)
        } else if rect_contains(self.next_button.rect, touch.x, touch.y) {
            Some(AppEvent::NextPuzzle)
        } else {
            None
        }
    }

    /// `Puzzle rating: <n>` once a puzzle has loaded.
    pub fn rating_line(&self) -> (r: Option<String>)
        ensures
            match self.rating {
                None => r is None,
                Some(n) => r matches Some(l) && l@ == "Puzzle rating: "@ + signed_decimal(n as int),
            },
    {
        match self.rating {
            None => None,
            Some(n) => {
                let mut l = string_of("Puzzle rating: ");
                push_signed(&mut l, n as i64);
                Some(l)
            },
        }
    }

    /// `next` is this sidebar with status line `text` and icon `icon`.
    pub open spec fn status_shown(self, next: Self, text: Seq<char>, icon: StatusIcon) -> bool {
        &&& next == (PuzzleSidebarWidget {
            status_text: next.status_text,
            status_icon: icon,
            ..self
        })
        &&& next.status_text@ == text
    }

    /// `self` is the sidebar `new` builds for `area`.
    pub open spec fn is_new(self, area: Rectangle) -> bool {
        let btn_y = area.y + (area.height as i16) - 134 - 18;
        let right_x = area.x + (area.width as i16) - 134 - 24;
        &&& self.area == area
        &&& self.back_button.rect.x == area.x + 24 && self.back_button.rect.y == btn_y
        &&& self.back_button.rect.width == ICON_BUTTON_SIZE && self.back_button.rect.height == ICON_BUTTON_SIZE
        &&& self.back_button.asset@ == "back-nav.png"@
        &&& self.hint_button.rect.x == right_x && self.hint_button.rect.y == btn_y - 134 - 12
        &&& self.hint_button.rect.width == ICON_BUTTON_SIZE && self.hint_button.rect.height == ICON_BUTTON_SIZE
        &&& self.hint_button.asset@ == "hint.png"@
        &&& self.settings_button.rect.x == right_x && self.settings_button.rect.y == btn_y
        &&& self.settings_button.rect.width == ICON_BUTTON_SIZE && self.settings_button.rect.height == ICON_BUTTON_SIZE
        &&& self.settings_button.asset@ == "settings.png"@
        &&& self.settings_button.glyph_size == 90
        &&& self.next_button.rect == (Rectangle {
            x: centered_x(area, 400) as i16,
            y: (btn_y + 25) as i16,
            width: 400,
            height: 84,
        })
        &&& self.next_button.label@ == "Next puzzle"@
        &&& self.next_button.font_px == 34
        &&& self.status_text@ == "Loading…"@
        &&& self.status_icon == StatusIcon::NoIcon
        &&& self.rating is None
        &&& self.themes@ == Seq::<char>::empty()
        &&& self.status_band == (Rectangle {
            x: centered_x(area, 600) as i16,
            y: (area.y + 32) as i16,
            width: 600,
            height: 72,
        })
        &&& self.info_band == (Rectangle {
            x: centered_x(area, 600) as i16,
            y: (area.y + 120) as i16,
            width: 600,
            height: 92,
        })
        &&& self.needs_full_repaint
        &&& self.drawn_status is None
        &&& self.drawn_info is None
    }

    pub fn new(area: Rectangle) -> (r: Self)
        requires
            puzzle_sidebar_layout_fits(area),
        ensures
            r.is_new(area),
    {
        let margin: i16 = 24;
        let next_w: u16 = 400;
        let next_h: u16 = 84;
        let stack_gap: i16 = 12;
        let btn_y = area.y + area.height as i16 - ICON_BUTTON_SIZE as i16 - 18;
        let next_x = area.x + (area.width as i16 - next_w as i16) / 2;
        // Centre the shorter text button vertically against the icon buttons.
        let next_y = btn_y + (ICON_BUTTON_SIZE as i16 - next_h as i16) / 2;
        let right_x = area.x + area.width as i16 - ICON_BUTTON_SIZE as i16 - margin;
        let x600 = area.x + (area.width as i16 - 600i16) / 2;
        PuzzleSidebarWidget {
            area,
            back_button: IconButton::new(area.x + margin, btn_y, "back-nav.png"),
            hint_button: IconButton::new(
                right_x,
                btn_y - ICON_BUTTON_SIZE as i16 - stack_gap,
                "hint.png",
            ),
            settings_button: IconButton::new(right_x, btn_y, "settings.png").with_glyph_size(90),
            next_button: Button::new(
                next_x,
                next_y,
                next_w,
                next_h,
                string_of("Next puzzle"),
                34,
                true,
            ),
            status_text: string_of("Loading…"),
            status_icon: StatusIcon::NoIcon,
            rating: None,
            themes: String::new(),
            status_band: Rectangle::new(x600, area.y + 32, 600, 72),
            info_band: Rectangle::new(x600, area.y + 120, 600, 92),
            needs_full_repaint: true,
            drawn_status: None,
            drawn_info: None,
        }
    }

    /// Show the result of the solver's last move.
    pub fn set_status(&mut self, status: &PuzzleStatus)
        ensures
            *final(self) == (PuzzleSidebarWidget {
                status_text: final(self).status_text,
                status_icon: status_line(*status).1,
                ..*old(self)
            }),
            final(self).status_text@ == status_line(*status).0,
    {
        let (text, icon) = match status {
            PuzzleStatus::Solving => ("Find the best move", StatusIcon::NoIcon),
            PuzzleStatus::Correct => ("Correct move", StatusIcon::Check),
            PuzzleStatus::Wrong => ("Try something else", StatusIcon::Cross),
            PuzzleStatus::Solved => ("Finished Puzzle", StatusIcon::Check),
        };
        self.status_text = string_of(text);
        self.status_icon = icon;
    }

    /// A plain message with no icon (loading and error states).
    pub fn set_message(&mut self, message: &str)
        ensures
            *final(self) == (PuzzleSidebarWidget {
                status_text: final(self).status_text,
                status_icon: StatusIcon::NoIcon,
                ..*old(self)
            }),
            final(self).status_text@ == message@,
    {
        self.status_text = string_of(message);
        self.status_icon = StatusIcon::NoIcon;
    }

    /// Show the rating and the first `MAX_THEMES` themes joined by ` · `.
    pub fn set_puzzle_info(&mut self, rating: i32, themes: &[String])
        ensures
            *final(self) == (PuzzleSidebarWidget {
                rating: Some(rating),
                themes: final(self).themes,
                ..*old(self)
            }),
            final(self).themes@ == themes_line(themes@),
    {
        self.rating = Some(rating);
        let n = if themes.len() < MAX_THEMES {
            themes.len()
        } else {
            MAX_THEMES
        };
        let mut s = String::new();
        let mut i: usize = 0;
        while i < n
            invariant
                n <= themes@.len(),
                i <= n,
                s@ == joined(themes@.take(i as int).map_values(|t: String| t@), " · "@),
            decreases n - i,
        {
            let ghost prev = themes@.take(i as int).map_values(|t: String| t@);
            if i > 0 {
                push_str(&mut s, " · ");
            }
            push_str(&mut s, themes[i].as_str());
            proof {
                let next = themes@.take(i + 1).map_values(|t: String| t@);
                assert(next.drop_last() =~= prev);
                assert(next.last() == themes@[i as int]@);
                if i == 0 {
                    assert(s@ =~= next[0]);
                } else {
                    assert(s@ =~= joined(prev, " · "@) + " · "@ + themes@[i as int]@);
                }
            }
            i += 1;
        }
        self.themes = s;
    }

    /// A touch release on one of the buttons: back leaves the puzzle, hint
    /// marks the piece to move, settings opens the puzzle settings, and
    /// "Next puzzle" fetches another.
    pub fn handle_touch(&self, touch: &TouchEvent) -> (r: Option<AppEvent>)
        requires
            self.touch_ready(),
        ensures
            r == self.touch_event(*touch),
    {
        if touch.kind != TouchKind::Up {
            return None;
        }
        if self.back_button.contains(touch.x, touch.y) {
            return Some(AppEvent::ExitToMenu);
        }
        if self.hint_button.contains(touch.x, touch.y) {
            return Some(AppEvent::ShowPuzzleHint);
        }
        if self.settings_button.contains(touch.x, touch.y) {
            return Some(AppEvent::OpenPuzzleSettings);
        }
        if self.next_button.rect.contains(touch.x, touch.y) {
            return Some(AppEvent::NextPuzzle);
        }
        None
    }

    pub fn invalidate(&mut self)
        ensures
            *final(self) == (PuzzleSidebarWidget { needs_full_repaint: true, ..*old(self) }),
    {
        self.needs_full_repaint = true;
    }

    /// The status line differs from what was last painted.
    pub open spec fn status_changed(self) -> bool {
        match self.drawn_status {
            Some((text, icon)) => text@ != self.status_text@ || icon != self.status_icon,
            None => true,
        }
    }

    /// The rating and themes differ from what was last painted.
    pub open spec fn info_changed(self) -> bool {
        match self.drawn_info {
            Some((rating, themes)) => rating != self.rating || themes@ != self.themes@,
            None => true,
        }
    }

    /// What the next render paints: on a full repaint the frame, both text
    /// blocks and the buttons; otherwise only the blocks whose content
    /// changed, each after clearing its band.
    pub open spec fn render_plan(self) -> Seq<SidebarPaint> {
        let full = self.needs_full_repaint;
        (if full {
            seq![SidebarPaint::Frame]
        } else {
            Seq::empty()
        }) + (if full {
            seq![SidebarPaint::FirstLine]
        } else if self.status_changed() {
            seq![SidebarPaint::ClearBand(self.status_band), SidebarPaint::FirstLine]
        } else {
            Seq::empty()
        }) + (if full {
            seq![SidebarPaint::SecondLine]
        } else if self.info_changed() {
            seq![SidebarPaint::ClearBand(self.info_band), SidebarPaint::SecondLine]
        } else {
            Seq::empty()
        }) + (if full {
            seq![SidebarPaint::Buttons]
        } else {
            Seq::empty()
        })
    }

    /// Work out what to paint and record it as painted.
    pub fn render(&mut self) -> (r: Vec<SidebarPaint>)
        ensures
            r@ == old(self).render_plan(),
            !final(self).needs_full_repaint,
            !final(self).status_changed(),
            !final(self).info_changed(),
            final(self).area == old(self).area,
            final(self).status_text == old(self).status_text,
            final(self).status_icon == old(self).status_icon,
            final(self).rating == old(self).rating,
            final(self).themes == old(self).themes,
            final(self).status_band == old(self).status_band,
            final(self).info_band == old(self).info_band,
    {
        let mut plan: Vec<SidebarPaint> = Vec::new();
        let full = self.needs_full_repaint;
        if full {
            plan.push(SidebarPaint::Frame);
        }
        let status_same = match &self.drawn_status {
            Some((text, icon)) => *text == self.status_text && *icon == self.status_icon,
            None => false,
        };
        if full || !status_same {
            if !full {
                plan.push(SidebarPaint::ClearBand(self.status_band));
            }
            plan.push(SidebarPaint::FirstLine);
            self.drawn_status = Some((self.status_text.clone(), self.status_icon));
        }
        let info_same = match &self.drawn_info {
            Some((rating, themes)) => *rating == self.rating && *themes == self.themes,
            None => false,
        };
        if full || !info_same {
            if !full {
                plan.push(SidebarPaint::ClearBand(self.info_band));
            }
            plan.push(SidebarPaint::SecondLine);
            self.drawn_info = Some((self.rating, self.themes.clone()));
        }
        if full {
            plan.push(SidebarPaint::Buttons);
            self.needs_full_repaint = false;
        }
        assert(plan@ =~= old(self).render_plan());
        plan
    }
}

} // verus!
