//! The menu-like screens: the home launcher, the QR sign-in screen, the
//! settings page and its updater, the puzzle settings and the game actions.
//! The canvas is 1072 × 1448 pixels.

use crate::chess::{app_token, in_game_api, ChessApp, ChessBackend};
use crate::events::{rect_contains, rect_fits, AppEvent, GrayImage, Rectangle, RectangleExt, TouchEvent, TouchKind};
use crate::game_screens::{ChessGameScreen, OngoingChessGamesScreen};
use crate::github::UpdateInfo;
use crate::puzzle::{
    color_label, color_next, difficulty_label, difficulty_next, phase_label, phase_next,
    PuzzleParams,
};
use crate::puzzle_screen::PuzzleScreen;
use crate::screens::{just, window_reaction, Effect, Reaction, Screen, Transition};
use crate::text::{copy_string, decimal, push_decimal, push_str, string_of};
use crate::widgets::{button_is, Button};
use vstd::prelude::*;

verus! {

// ─── HomeScreen ──────────────────────────────────────────────────────────────

/// The launcher: chess, puzzle, ongoing games and settings, stacked in the
/// lower half under the logo. Chess and ongoing games stay inert until
/// `app` is set (by the sign-in); puzzle and settings always work.
pub struct HomeScreen {
    pub chess_button: Button,
    pub puzzle_button: Button,
    pub ongoing_games_button: Button,
    pub settings_button: Button,
    /// The signed-in chess backend, once known.
    pub app: Option<ChessApp>,
    /// The cached-token check has been started.
    pub auth_started: bool,
}

impl HomeScreen {
    /// `self` is the screen `new` builds: four 600 × 96 buttons, 28 px
    /// apart, centred in the lower half.
    pub open spec fn is_new(self) -> bool {
        &&& button_is(self.chess_button, 236, 852, 600, 96, "Demo"@, 45)
        &&& button_is(self.puzzle_button, 236, 976, 600, 96, "Puzzle"@, 45)
        &&& button_is(self.ongoing_games_button, 236, 1100, 600, 96, "Ongoing Games"@, 45)
        &&& button_is(self.settings_button, 236, 1224, 600, 96, "Settings"@, 45)
        &&& self.app is None
        &&& !self.auth_started
    }

    /// The buttons can be hit-tested.
    pub open spec fn wf(self) -> bool {
        &&& rect_fits(self.chess_button.rect)
        &&& rect_fits(self.puzzle_button.rect)
        &&& rect_fits(self.ongoing_games_button.rect)
        &&& rect_fits(self.settings_button.rect)
    }

    /// The transition for a touch: on release, settings and puzzle always
    /// open their screens (the puzzle screen gets the signed-in token, if
    /// any); chess and ongoing games need the signed-in app; a tap that hits
    /// nothing changes nothing.
    pub open spec fn touch_transition(self, t: TouchEvent, tr: Transition) -> bool {
        if t.kind != TouchKind::Up {
            tr == Transition::Stay
        } else if rect_contains(self.settings_button.rect, t.x, t.y) {
            tr matches Transition::Push(Screen::Settings(s)) && s.is_new()
        } else if rect_contains(self.puzzle_button.rect, t.x, t.y) {
            tr matches Transition::Push(Screen::Puzzle(s)) && s.is_new(
                match self.app {
                    Some(a) => app_token(a),
                    None => None,
                },
            )
        } else {
            match self.app {
                None => tr == Transition::Stay,
                Some(app) => if rect_contains(self.chess_button.rect, t.x, t.y) {
                    tr matches Transition::Push(Screen::ChessGame(s)) && s.is_new(app)
                } else if rect_contains(self.ongoing_games_button.rect, t.x, t.y) {
                    tr matches Transition::Push(Screen::OngoingGames(s)) && s.is_new(app)
                } else {
                    tr == Transition::Stay
                },
            }
        }
    }

    /// `next` and `r` are the screen and reaction after `e`: a signed-in
    /// app makes the buttons live; a failed silent sign-in opens the QR
    /// sign-in screen.
    pub open spec fn step(self, e: AppEvent, next: Self, r: Reaction) -> bool {
        match e {
            AppEvent::ChessReady(app) => next == (HomeScreen { app: Some(app), ..self }) && r
                == just(Transition::Redraw),
            AppEvent::AuthFailed(_) => {
                &&& next == self
                &&& r.effect is None
                &&& r.transition matches Transition::Push(Screen::ChessAuth(s)) && s.is_new()
            },
            AppEvent::Touch(t) => next == self && r.effect is None && self.touch_transition(
                t,
                r.transition,
            ),
            _ => next == self && r == window_reaction(e),
        }
    }

    pub fn new() -> (r: Self)
        ensures
            r.is_new(),
            r.wf(),
    {
        let btn_w: u16 = 600;
        let btn_h: u16 = 96;
        let gap: i16 = 28;
        let center_x: i16 = 1072 / 2;
        let x = center_x - btn_w as i16 / 2;
        let total = 4 * btn_h as i16 + 3 * gap;
        let upper_half: i16 = 1448 / 2;
        let start_y = upper_half + (1448 - upper_half - total) / 2;
        let step = btn_h as i16 + gap;
        HomeScreen {
            chess_button: Button::new(x, start_y, btn_w, btn_h, string_of("Demo"), 45, true),
            puzzle_button: Button::new(x, start_y + step, btn_w, btn_h, string_of("Puzzle"), 45, true),
            ongoing_games_button: Button::new(
                x,
                start_y + 2 * step,
                btn_w,
                btn_h,
                string_of("Ongoing Games"),
                45,
                true,
            ),
            settings_button: Button::new(
                x,
                start_y + 3 * step,
                btn_w,
                btn_h,
                string_of("Settings"),
                45,
                true,
            ),
            app: None,
            auth_started: false,
        }
    }

    /// On the first paint: start the cached-token check, once.
    pub fn start(&mut self) -> (r: Option<Effect>)
        ensures
            *final(self) == (HomeScreen { auth_started: true, ..*old(self) }),
            r == if old(self).auth_started {
                None
            } else {
                Some(Effect::CheckCachedToken)
            },
    {
        if self.auth_started {
            return None;
        }
        self.auth_started = true;
        Some(Effect::CheckCachedToken)
    }

    pub fn handle_event(&mut self, event: AppEvent) -> (r: Reaction)
        requires
            old(self).wf(),
        ensures
            old(self).step(event, *final(self), r),
            r.transition matches Transition::Push(s) ==> s.wf(),
    {
        match event {
            AppEvent::ChessReady(app) => {
                self.app = Some(app);
                Reaction::redraw()
            },
            AppEvent::AuthFailed(_) => Reaction::push(Screen::ChessAuth(ChessAuthScreen::new())),
            AppEvent::Touch(touch) => {
                if touch.kind != TouchKind::Up {
                    return Reaction::stay();
                }
                if self.settings_button.rect.contains(touch.x, touch.y) {
                    return Reaction::push(Screen::Settings(SettingsScreen::new()));
                }
                if self.puzzle_button.rect.contains(touch.x, touch.y) {
                    let token = match &self.app {
                        Some(a) => a.token(),
                        None => None,
                    };
                    return Reaction::push(Screen::Puzzle(PuzzleScreen::new(token)));
                }
                let app = match &self.app {
                    Some(a) => a.duplicate(),
                    None => return Reaction::stay(),
                };
                if self.chess_button.rect.contains(touch.x, touch.y) {
                    Reaction::push(Screen::ChessGame(ChessGameScreen::new(app)))
                } else if self.ongoing_games_button.rect.contains(touch.x, touch.y) {
                    Reaction::push(Screen::OngoingGames(OngoingChessGamesScreen::new(app)))
                } else {
                    Reaction::stay()
                }
            },
            _ => Reaction::window(&event),
        }
    }
}

// ─── ChessAuthScreen ─────────────────────────────────────────────────────────

/// Sign-in by QR code: shows the code once the flow has produced it.
pub struct ChessAuthScreen {
    pub qr_code: Rectangle,
    pub auth_status: Rectangle,
    pub qr_image: Option<GrayImage>,
    pub auth_url: Option<String>,
    /// The authorisation flow has been started.
    pub auth_started: bool,
}

impl ChessAuthScreen {
    pub open spec fn is_new(self) -> bool {
        &&& self.qr_code == (Rectangle { x: 286, y: 400, width: 500, height: 500 })
        &&& self.auth_status == (Rectangle { x: 286, y: 940, width: 500, height: 60 })
        &&& self.qr_image is None
        &&& self.auth_url is None
        &&& !self.auth_started
    }

    /// `next` and `r` are the screen and reaction after `e`. A successful
    /// sign-in is posted back as a ready app; the ready app is passed on to
    /// the screen below (the home screen) as this one closes. A failure is
    /// only logged: the screen stays.
    pub open spec fn step(self, e: AppEvent, next: Self, r: Reaction) -> bool {
        match e {
            AppEvent::AuthSuccess(token, user) => {
                &&& next == self
                &&& r.transition == Transition::Stay
                &&& r.effect matches Some(Effect::Post(AppEvent::ChessReady(app))) && (
                app.backend matches ChessBackend::OnlineIdle(api) && api.token == token && api.user
                    == user)
            },
            AppEvent::ChessReady(app) => next == self && r == (Reaction {
                transition: Transition::Pop,
                effect: Some(Effect::Post(AppEvent::ChessReady(app))),
            }),
            AppEvent::QrReady(img) => next == (ChessAuthScreen { qr_image: Some(img), ..self })
                && r == just(Transition::Redraw),
            _ => next == self && r == just(Transition::Stay),
        }
    }

    pub fn new() -> (r: Self)
        ensures
            r.is_new(),
    {
        ChessAuthScreen {
            qr_code: Rectangle::new(286, 400, 500, 500),
            auth_status: Rectangle::new(286, 940, 500, 60),
            qr_image: None,
            auth_url: None,
            auth_started: false,
        }
    }

    /// On the first paint: start the QR authorisation flow, once.
    pub fn start(&mut self) -> (r: Option<Effect>)
        ensures
            *final(self) == (ChessAuthScreen { auth_started: true, ..*old(self) }),
            r == if old(self).auth_started {
                None
            } else {
                Some(Effect::Authenticate)
            },
    {
        if self.auth_started {
            return None;
        }
        self.auth_started = true;
        Some(Effect::Authenticate)
    }

    pub fn handle_event(&mut self, event: AppEvent) -> (r: Reaction)
        ensures
            old(self).step(event, *final(self), r),
    {
        match event {
            AppEvent::AuthSuccess(token, user) => Reaction {
                transition: Transition::Stay,
                effect: Some(Effect::Post(AppEvent::ChessReady(ChessApp::new_online(token, user)))),
            },
            AppEvent::ChessReady(app) => Reaction {
                transition: Transition::Pop,
                effect: Some(Effect::Post(AppEvent::ChessReady(app))),
            },
            AppEvent::QrReady(img) => {
                self.qr_image = Some(img);
                Reaction::redraw()
            },
            _ => Reaction::stay(),
        }
    }
}

// ─── SettingsScreen ──────────────────────────────────────────────────────────

/// App settings: the version block and the way into the updater.
pub struct SettingsScreen {
    pub check_update_button: Button,
    pub back_button: Button,
}

impl SettingsScreen {
    pub open spec fn is_new(self) -> bool {
        &&& button_is(self.check_update_button, 236, 664, 600, 120, "Check for updates"@, 40)
        &&& button_is(self.back_button, 236, 1316, 600, 100, "back"@, 40)
    }

    pub open spec fn wf(self) -> bool {
        rect_fits(self.check_update_button.rect) && rect_fits(self.back_button.rect)
    }

    /// `next` and `r` are the screen and reaction after `e`: a release on
    /// "Check for updates" opens the updater, on back returns.
    pub open spec fn step(self, e: AppEvent, next: Self, r: Reaction) -> bool {
        &&& next == self
        &&& match e {
            AppEvent::Touch(t) => r.effect is None && if t.kind != TouchKind::Up {
                r.transition == Transition::Stay
            } else if rect_contains(self.check_update_button.rect, t.x, t.y) {
                r.transition matches Transition::Push(Screen::Update(u)) && u.is_new()
            } else if rect_contains(self.back_button.rect, t.x, t.y) {
                r.transition == Transition::Pop
            } else {
                r.transition == Transition::Stay
            },
            _ => r == window_reaction(e),
        }
    }

    pub fn new() -> (r: Self)
        ensures
            r.is_new(),
            r.wf(),
    {
        let btn_w: u16 = 600;
        let btn_h: u16 = 120;
        let center_x: i16 = 1072 / 2;
        let center_y: i16 = 1448 / 2;
        SettingsScreen {
            check_update_button: Button::new(
                center_x - btn_w as i16 / 2,
                center_y - btn_h as i16 / 2,
                btn_w,
                btn_h,
                string_of("Check for updates"),
                40,
                true,
            ),
            back_button: Button::new(
                center_x - btn_w as i16 / 2,
                center_y * 2 - (btn_h as i16 - 20) - 32,
                btn_w,
                btn_h - 20,
                string_of("back"),
                40,
                true,
            ),
        }
    }

    /// The version block: the running version, the commit it was built
    /// from and when.
    pub fn info_lines(version: &str, commit: &str, built: &str) -> (r: Vec<String>)
        ensures
            texts(r@) == seq![
                "Version:  "@ + version@,
                "Commit:   "@ + commit@,
                "Built:    "@ + built@,
            ],
    {
        let mut v = string_of("Version:  ");
        push_str(&mut v, version);
        let mut c = string_of("Commit:   ");
        push_str(&mut c, commit);
        let mut b = string_of("Built:    ");
        push_str(&mut b, built);
        let mut r: Vec<String> = Vec::new();
        r.push(v);
        r.push(c);
        r.push(b);
        assert(texts(r@) =~= seq![
            "Version:  "@ + version@,
            "Commit:   "@ + commit@,
            "Built:    "@ + built@,
        ]);
        r
    }

    pub fn handle_event(&mut self, event: AppEvent) -> (r: Reaction)
        requires
            old(self).wf(),
        ensures
            old(self).step(event, *final(self), r),
            r.transition matches Transition::Push(s) ==> s.wf(),
    {
        match event {
            AppEvent::Touch(touch) => {
                if touch.kind != TouchKind::Up {
                    return Reaction::stay();
                }
                if self.check_update_button.rect.contains(touch.x, touch.y) {
                    return Reaction::push(Screen::Update(UpdateScreen::new()));
                }
                if self.back_button.rect.contains(touch.x, touch.y) {
                    return Reaction::pop();
                }
                Reaction::stay()
            },
            _ => Reaction::window(&event),
        }
    }
}

// ─── UpdateScreen ────────────────────────────────────────────────────────────

/// Where the updater stands: checking, then up to date or an update
/// available; an available update is downloaded and applied, or fails.
#[derive(Debug, Clone)]
pub enum UpdateState {
    Checking,
    UpToDate,
    Available(UpdateInfo),
    Downloading,
    Applied,
    Failed(String),
}

/// The updater. The check starts on the first paint; the action button is
/// live only when there is something to do: "Apply" for an available
/// update, "Quit" once it is applied (the launcher swaps the binary on the
/// next start).
pub struct UpdateScreen {
    pub state: UpdateState,
    pub action_button: Button,
    pub back_button: Button,
    /// The update check has been started.
    pub check_started: bool,
}

/// The action button does something in `state`.
pub open spec fn action_live(state: UpdateState) -> bool {
    state is Available || state is Applied
}

/// The lines shown for an available update, `current` and `latest` being
/// the two versions' texts.
pub open spec fn available_text(current: Seq<char>, latest: Seq<char>, size: u64, name: Seq<char>) -> Seq<Seq<char>> {
    seq![
        "Update available: v"@ + current + " → v"@ + latest,
        "("@ + decimal(size as nat) + " bytes)"@,
        Seq::empty(),
        name,
    ]
}

/// The lines shown in `state` other than `Available`, `version` being the
/// running version.
pub open spec fn state_text(state: UpdateState, version: Seq<char>) -> Seq<Seq<char>> {
    match state {
        UpdateState::Checking => seq!["Checking for updates…"@],
        UpdateState::UpToDate => seq!["You're up to date — v"@ + version],
        UpdateState::Downloading => seq!["Downloading and verifying…"@],
        UpdateState::Applied => seq!["Update applied."@, "Quit and relaunch from the KUAL menu."@],
        UpdateState::Failed(msg) => seq!["Update failed:"@, msg@],
        UpdateState::Available(_) => Seq::empty(),
    }
}

/// The views of a list of strings.
pub open spec fn texts(v: Seq<String>) -> Seq<Seq<char>> {
    v.map_values(|s: String| s@)
}

/// The lines for an available update.
pub fn available_lines(current: &str, latest: &str, size: u64, name: &str) -> (r: Vec<String>)
    ensures
        texts(r@) == available_text(current@, latest@, size, name@),
{
    let mut head = string_of("Update available: v");
    push_str(&mut head, current);
    push_str(&mut head, " → v");
    push_str(&mut head, latest);
    let mut bytes = string_of("(");
    push_decimal(&mut bytes, size);
    push_str(&mut bytes, " bytes)");
    let mut r: Vec<String> = Vec::new();
    r.push(head);
    r.push(bytes);
    r.push(String::new());
    r.push(string_of(name));
    assert(texts(r@) =~= available_text(current@, latest@, size, name@));
    r
}

impl UpdateScreen {
    /// The lines of text under the title, `version` being the running
    /// version; an available update names its own two versions.
    pub fn body_lines(&self, version: &str) -> (r: Vec<String>)
        ensures
            match self.state {
                UpdateState::Available(info) => texts(r@) == available_text(
                    info.current@,
                    info.latest@,
                    info.asset_size,
                    info.release_name@,
                ),
                _ => texts(r@) == state_text(self.state, version@),
            },
    {
        let mut r: Vec<String> = Vec::new();
        match &self.state {
            UpdateState::Available(info) => {
                return available_lines(
                    info.current.as_str(),
                    info.latest.as_str(),
                    info.asset_size,
                    info.release_name.as_str(),
                );
            },
            UpdateState::Checking => r.push(string_of("Checking for updates…")),
            UpdateState::UpToDate => {
                let mut l = string_of("You're up to date — v");
                push_str(&mut l, version);
                r.push(l);
            },
            UpdateState::Downloading => r.push(string_of("Downloading and verifying…")),
            UpdateState::Applied => {
                r.push(string_of("Update applied."));
                r.push(string_of("Quit and relaunch from the KUAL menu."));
            },
            UpdateState::Failed(msg) => {
                r.push(string_of("Update failed:"));
                r.push(copy_string(msg));
            },
        }
        assert(texts(r@) =~= state_text(self.state, version@));
        r
    }

    /// Label the action button for the state: "Apply" for an available
    /// update, "Quit" once applied; otherwise the button is not shown and
    /// keeps its label.
    pub fn label_action(&mut self)
        ensures
            *final(self) == (UpdateScreen {
                action_button: Button {
                    label: final(self).action_button.label,
                    ..old(self).action_button
                },
                ..*old(self)
            }),
            final(self).action_button.label@ == match old(self).state {
                UpdateState::Available(_) => "Apply"@,
                UpdateState::Applied => "Quit"@,
                _ => old(self).action_button.label@,
            },
    {
        match &self.state {
            UpdateState::Available(_) => self.action_button.label = string_of("Apply"),
            UpdateState::Applied => self.action_button.label = string_of("Quit"),
            _ => {},
        }
    }

    /// The action button is drawn.
    pub fn action_visible(&self) -> (r: bool)
        ensures
            r == action_live(self.state),
    {
        match &self.state {
            UpdateState::Available(_) | UpdateState::Applied => true,
            _ => false,
        }
    }

    pub open spec fn is_new(self) -> bool {
        &&& self.state is Checking
        &&& button_is(self.action_button, 236, 844, 600, 120, "…"@, 40)
        &&& button_is(self.back_button, 236, 1316, 600, 100, "back"@, 40)
        &&& !self.check_started
    }

    pub open spec fn wf(self) -> bool {
        rect_fits(self.action_button.rect) && rect_fits(self.back_button.rect)
    }

    /// `next` has state `failed` carrying `prefix` followed by `msg`, and is
    /// otherwise this screen.
    pub open spec fn failed_with(self, next: Self, prefix: Seq<char>, msg: Seq<char>) -> bool {
        &&& next == (UpdateScreen { state: next.state, ..self })
        &&& next.state matches UpdateState::Failed(m) && m@ == prefix + msg
    }

    /// `next` and `r` are the screen and reaction after `e`. Results of the
    /// check and of the installation move the state on. A release on back
    /// returns; on the action button it starts installing an available
    /// update, or quits once one is applied.
    pub open spec fn step(self, e: AppEvent, next: Self, r: Reaction) -> bool {
        match e {
            AppEvent::UpdateAvailable(info) => next == (UpdateScreen {
                state: UpdateState::Available(info),
                ..self
            }) && r == just(Transition::Redraw),
            AppEvent::UpdateUpToDate => next == (UpdateScreen {
                state: UpdateState::UpToDate,
                ..self
            }) && r == just(Transition::Redraw),
            AppEvent::UpdateCheckFailed(msg) => self.failed_with(next, "Check failed: "@, msg@)
                && r == just(Transition::Redraw),
            AppEvent::UpdateApplied => next == (UpdateScreen {
                state: UpdateState::Applied,
                ..self
            }) && r == just(Transition::Redraw),
            AppEvent::UpdateApplyFailed(msg) => self.failed_with(next, "Apply failed: "@, msg@)
                && r == just(Transition::Redraw),
            AppEvent::Touch(t) => if t.kind != TouchKind::Up {
                next == self && r == just(Transition::Stay)
            } else if rect_contains(self.back_button.rect, t.x, t.y) {
                next == self && r == just(Transition::Pop)
            } else if rect_contains(self.action_button.rect, t.x, t.y) {
                match self.state {
                    UpdateState::Available(info) => next == (UpdateScreen {
                        state: UpdateState::Downloading,
                        ..self
                    }) && r == (Reaction {
                        transition: Transition::Redraw,
                        effect: Some(Effect::ApplyUpdate(info)),
                    }),
                    UpdateState::Applied => next == self && r == just(Transition::Quit),
                    _ => next == self && r == just(Transition::Stay),
                }
            } else {
                next == self && r == just(Transition::Stay)
            },
            _ => next == self && r == window_reaction(e),
        }
    }

    pub fn new() -> (r: Self)
        ensures
            r.is_new(),
            r.wf(),
    {
        let btn_w: u16 = 600;
        let btn_h: u16 = 120;
        let center_x: i16 = 1072 / 2;
        let center_y: i16 = 1448 / 2;
        UpdateScreen {
            state: UpdateState::Checking,
            action_button: Button::new(
                center_x - btn_w as i16 / 2,
                center_y + btn_h as i16,
                btn_w,
                btn_h,
                string_of("…"),
                40,
                true,
            ),
            back_button: Button::new(
                center_x - btn_w as i16 / 2,
                center_y * 2 - (btn_h as i16 - 20) - 32,
                btn_w,
                btn_h - 20,
                string_of("back"),
                40,
                true,
            ),
            check_started: false,
        }
    }

    /// On the first paint: start the update check, once.
    pub fn start(&mut self) -> (r: Option<Effect>)
        ensures
            *final(self) == (UpdateScreen { check_started: true, ..*old(self) }),
            r == if old(self).check_started {
                None
            } else {
                Some(Effect::CheckForUpdate)
            },
    {
        if self.check_started {
            return None;
        }
        self.check_started = true;
        Some(Effect::CheckForUpdate)
    }

    pub fn handle_event(&mut self, event: AppEvent) -> (r: Reaction)
        requires
            old(self).wf(),
        ensures
            old(self).step(event, *final(self), r),
    {
        match event {
            AppEvent::UpdateAvailable(info) => {
                self.state = UpdateState::Available(info);
                Reaction::redraw()
            },
            AppEvent::UpdateUpToDate => {
                self.state = UpdateState::UpToDate;
                Reaction::redraw()
            },
            AppEvent::UpdateCheckFailed(msg) => {
                let mut m = string_of("Check failed: ");
                push_str(&mut m, msg.as_str());
                self.state = UpdateState::Failed(m);
                Reaction::redraw()
            },
            AppEvent::UpdateApplied => {
                self.state = UpdateState::Applied;
                Reaction::redraw()
            },
            AppEvent::UpdateApplyFailed(msg) => {
                let mut m = string_of("Apply failed: ");
                push_str(&mut m, msg.as_str());
                self.state = UpdateState::Failed(m);
                Reaction::redraw()
            },
            AppEvent::Touch(touch) => {
                if touch.kind != TouchKind::Up {
                    return Reaction::stay();
                }
                if self.back_button.rect.contains(touch.x, touch.y) {
                    return Reaction::pop();
                }
                if self.action_button.rect.contains(touch.x, touch.y) {
                    match &self.state {
                        UpdateState::Available(_) => {
                            let mut taken = UpdateState::Downloading;
                            core::mem::swap(&mut taken, &mut self.state);
                            return match taken {
                                UpdateState::Available(info) => Reaction {
                                    transition: Transition::Redraw,
                                    effect: Some(Effect::ApplyUpdate(info)),
                                },
                                _ => Reaction::redraw(),
                            };
                        },
                        UpdateState::Applied => {
                            return Reaction { transition: Transition::Quit, effect: None };
                        },
                        _ => {},
                    }
                }
                Reaction::stay()
            },
            _ => Reaction::window(&event),
        }
    }
}

/// The updater's action button is live only when there is something to
/// do: in any other state, no touch starts work or quits, and the state is
/// left as it is.
pub proof fn lemma_update_action_only_when_live(u: UpdateScreen, t: TouchEvent, next: UpdateScreen, r: Reaction)
    requires
        u.step(AppEvent::Touch(t), next, r),
        !action_live(u.state),
    ensures
        r.effect is None,
        r.transition != Transition::Quit,
        next == u,
{
}

// ─── PuzzleSettingsScreen ────────────────────────────────────────────────────

/// The `/puzzle/next` parameters: difficulty, phase and colour cycle on
/// each tap; "Get new puzzle" hands them to the puzzle screen below.
pub struct PuzzleSettingsScreen {
    pub params: PuzzleParams,
    pub difficulty_button: Button,
    pub phase_button: Button,
    pub color_button: Button,
    pub fetch_button: Button,
    pub back_button: Button,
}

impl PuzzleSettingsScreen {
    /// `self` is the screen `new` builds for `params`: five 760 px wide
    /// buttons, the option buttons labelled with the current values.
    pub open spec fn is_new(self, params: PuzzleParams) -> bool {
        &&& self.params == params
        &&& button_is(
            self.difficulty_button,
            156,
            320,
            760,
            110,
            "Difficulty: "@ + difficulty_label(params.difficulty),
            38,
        )
        &&& button_is(self.phase_button, 156, 454, 760, 110, "Phase: "@ + phase_label(params.phase), 38)
        &&& button_is(self.color_button, 156, 588, 760, 110, "Color: "@ + color_label(params.color), 38)
        &&& button_is(self.fetch_button, 156, 782, 760, 110, "Get new puzzle"@, 38)
        &&& button_is(self.back_button, 156, 1298, 760, 90, "Back"@, 38)
    }

    pub open spec fn wf(self) -> bool {
        &&& rect_fits(self.difficulty_button.rect)
        &&& rect_fits(self.phase_button.rect)
        &&& rect_fits(self.color_button.rect)
        &&& rect_fits(self.fetch_button.rect)
        &&& rect_fits(self.back_button.rect)
    }

    /// `next` and `r` are the screen and reaction after `e`. A release on
    /// an option button moves that option to its next value and relabels
    /// the button; "Get new puzzle" posts the parameters and returns; back
    /// returns.
    pub open spec fn step(self, e: AppEvent, next: Self, r: Reaction) -> bool {
        match e {
            AppEvent::Touch(t) => if t.kind != TouchKind::Up {
                next == self && r == just(Transition::Stay)
            } else if rect_contains(self.difficulty_button.rect, t.x, t.y) {
                let d = difficulty_next(self.params.difficulty);
                &&& next == (PuzzleSettingsScreen {
                    params: PuzzleParams { difficulty: d, ..self.params },
                    difficulty_button: Button {
                        label: next.difficulty_button.label,
                        ..self.difficulty_button
                    },
                    ..self
                })
                &&& next.difficulty_button.label@ == "Difficulty: "@ + difficulty_label(d)
                &&& r == just(Transition::Redraw)
            } else if rect_contains(self.phase_button.rect, t.x, t.y) {
                let p = phase_next(self.params.phase);
                &&& next == (PuzzleSettingsScreen {
                    params: PuzzleParams { phase: p, ..self.params },
                    phase_button: Button { label: next.phase_button.label, ..self.phase_button },
                    ..self
                })
                &&& next.phase_button.label@ == "Phase: "@ + phase_label(p)
                &&& r == just(Transition::Redraw)
            } else if rect_contains(self.color_button.rect, t.x, t.y) {
                let c = color_next(self.params.color);
                &&& next == (PuzzleSettingsScreen {
                    params: PuzzleParams { color: c, ..self.params },
                    color_button: Button { label: next.color_button.label, ..self.color_button },
                    ..self
                })
                &&& next.color_button.label@ == "Color: "@ + color_label(c)
                &&& r == just(Transition::Redraw)
            } else if rect_contains(self.fetch_button.rect, t.x, t.y) {
                next == self && r == (Reaction {
                    transition: Transition::Pop,
                    effect: Some(Effect::Post(AppEvent::ApplyPuzzleParams(self.params))),
                })
            } else if rect_contains(self.back_button.rect, t.x, t.y) {
                next == self && r == just(Transition::Pop)
            } else {
                next == self && r == just(Transition::Stay)
            },
            _ => next == self && r == window_reaction(e),
        }
    }

    pub fn new(params: PuzzleParams) -> (r: Self)
        ensures
            r.is_new(params),
            r.wf(),
    {
        let btn_w: u16 = 760;
        let btn_h: u16 = 110;
        let center_x: i16 = 1072 / 2;
        let x = center_x - btn_w as i16 / 2;
        let stride = btn_h as i16 + 24;
        let mut difficulty = string_of("Difficulty: ");
        push_str(&mut difficulty, params.difficulty.label());
        let mut phase = string_of("Phase: ");
        push_str(&mut phase, params.phase.label());
        let mut color = string_of("Color: ");
        push_str(&mut color, params.color.label());
        PuzzleSettingsScreen {
            params,
            difficulty_button: Button::new(x, 320, btn_w, btn_h, difficulty, 38, true),
            phase_button: Button::new(x, 320 + stride, btn_w, btn_h, phase, 38, true),
            color_button: Button::new(x, 320 + 2 * stride, btn_w, btn_h, color, 38, true),
            fetch_button: Button::new(
                x,
                320 + 3 * stride + 60,
                btn_w,
                btn_h,
                string_of("Get new puzzle"),
                38,
                true,
            ),
            back_button: Button::new(
                x,
                1448 - btn_h as i16 - 40,
                btn_w,
                btn_h - 20,
                string_of("Back"),
                38,
                true,
            ),
        }
    }

    pub fn handle_event(&mut self, event: AppEvent) -> (r: Reaction)
        requires
            old(self).wf(),
        ensures
            old(self).step(event, *final(self), r),
    {
        match event {
            AppEvent::Touch(touch) => {
                if touch.kind != TouchKind::Up {
                    return Reaction::stay();
                }
                if self.difficulty_button.rect.contains(touch.x, touch.y) {
                    self.params.difficulty = self.params.difficulty.next();
                    let mut l = string_of("Difficulty: ");
                    push_str(&mut l, self.params.difficulty.label());
                    self.difficulty_button.label = l;
                    return Reaction::redraw();
                }
                if self.phase_button.rect.contains(touch.x, touch.y) {
                    self.params.phase = self.params.phase.next();
                    let mut l = string_of("Phase: ");
                    push_str(&mut l, self.params.phase.label());
                    self.phase_button.label = l;
                    return Reaction::redraw();
                }
                if self.color_button.rect.contains(touch.x, touch.y) {
                    self.params.color = self.params.color.next();
                    let mut l = string_of("Color: ");
                    push_str(&mut l, self.params.color.label());
                    self.color_button.label = l;
                    return Reaction::redraw();
                }
                if self.fetch_button.rect.contains(touch.x, touch.y) {
                    return Reaction {
                        transition: Transition::Pop,
                        effect: Some(Effect::Post(AppEvent::ApplyPuzzleParams(self.params))),
                    };
                }
                if self.back_button.rect.contains(touch.x, touch.y) {
                    return Reaction::pop();
                }
                Reaction::stay()
            },
            _ => Reaction::window(&event),
        }
    }
}

// ─── GameActionsScreen ───────────────────────────────────────────────────────

/// Resign or abort the live game. Both are fire-and-forget: the game stream
/// still running under this screen reports the end of the game.
pub struct GameActionsScreen {
    pub app: ChessApp,
    pub resign_button: Button,
    pub abort_button: Button,
    pub back_button: Button,
}

impl GameActionsScreen {
    pub open spec fn is_new(self, app: ChessApp) -> bool {
        &&& self.app == app
        &&& button_is(self.resign_button, 236, 594, 600, 120, "Resign"@, 40)
        &&& button_is(self.abort_button, 236, 734, 600, 120, "Abort"@, 40)
        &&& button_is(self.back_button, 236, 1316, 600, 100, "back"@, 40)
    }

    pub open spec fn wf(self) -> bool {
        &&& rect_fits(self.resign_button.rect)
        &&& rect_fits(self.abort_button.rect)
        &&& rect_fits(self.back_button.rect)
    }

    /// `next` and `r` are the screen and reaction after `e`. A release on
    /// resign or abort sends that request for the game in play (nothing is
    /// sent without one) and returns; back returns.
    pub open spec fn step(self, e: AppEvent, next: Self, r: Reaction) -> bool {
        &&& next == self
        &&& match e {
            AppEvent::Touch(t) => if t.kind != TouchKind::Up {
                r == just(Transition::Stay)
            } else if rect_contains(self.resign_button.rect, t.x, t.y) {
                r == (Reaction {
                    transition: Transition::Pop,
                    effect: match in_game_api(self.app) {
                        Some(api) => Some(Effect::Resign(api)),
                        None => None,
                    },
                })
            } else if rect_contains(self.abort_button.rect, t.x, t.y) {
                r == (Reaction {
                    transition: Transition::Pop,
                    effect: match in_game_api(self.app) {
                        Some(api) => Some(Effect::Abort(api)),
                        None => None,
                    },
                })
            } else if rect_contains(self.back_button.rect, t.x, t.y) {
                r == just(Transition::Pop)
            } else {
                r == just(Transition::Stay)
            },
            _ => r == window_reaction(e),
        }
    }

    pub fn new(app: ChessApp) -> (r: Self)
        ensures
            r.is_new(app),
            r.wf(),
    {
        let btn_w: u16 = 600;
        let btn_h: u16 = 120;
        let center_x: i16 = 1072 / 2;
        let center_y: i16 = 1448 / 2;
        let x = center_x - btn_w as i16 / 2;
        GameActionsScreen {
            app,
            resign_button: Button::new(
                x,
                center_y - btn_h as i16 - 10,
                btn_w,
                btn_h,
                string_of("Resign"),
                40,
                true,
            ),
            abort_button: Button::new(x, center_y + 10, btn_w, btn_h, string_of("Abort"), 40, true),
            back_button: Button::new(
                x,
                center_y * 2 - (btn_h as i16 - 20) - 32,
                btn_w,
                btn_h - 20,
                string_of("back"),
                40,
                true,
            ),
        }
    }

    pub fn handle_event(&mut self, event: AppEvent) -> (r: Reaction)
        requires
            old(self).wf(),
        ensures
            old(self).step(event, *final(self), r),
    {
        match event {
            AppEvent::Touch(touch) => {
                if touch.kind != TouchKind::Up {
                    return Reaction::stay();
                }
                if self.resign_button.rect.contains(touch.x, touch.y) {
                    let effect = match self.app.online_in_game_api() {
                        Some(api) => Some(Effect::Resign(api)),
                        None => None,
                    };
                    return Reaction { transition: Transition::Pop, effect };
                }
                if self.abort_button.rect.contains(touch.x, touch.y) {
                    let effect = match self.app.online_in_game_api() {
                        Some(api) => Some(Effect::Abort(api)),
                        None => None,
                    };
                    return Reaction { transition: Transition::Pop, effect };
                }
                if self.back_button.rect.contains(touch.x, touch.y) {
                    return Reaction::pop();
                }
                Reaction::stay()
            },
            _ => Reaction::window(&event),
        }
    }
}

} // verus!
