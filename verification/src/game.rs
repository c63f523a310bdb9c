//! The game: which screen is up, and what a tick or a key does to it.
//!
//! The game decides; its caller acts. A tick and a key each change the
//! state and hand back what is to be done outside: a track to play, the
//! window to switch, the program to end.

use vstd::prelude::*;
use crate::enemy::Enemy;
use crate::input::HeldKeys;
use crate::input::Key;
use crate::intro::Intro;
use crate::map::WorldMap;
use crate::options::MenuAction;
use crate::options::Options;
use crate::player::Player;
use crate::player::PlayerView;
use crate::rooms::grid_room::initial_grid;
use crate::rooms::grid_room::keeps_layout;
use crate::rooms::grid_room::nook_rule;
use crate::rooms::is_door_at;
use crate::rooms::GridRoom;
use crate::rooms::Room;
use crate::title::TitleScreen;
use crate::units::tile_index;
use crate::units::tile_of;
use crate::units::HALF_TILE;
use crate::units::MAX_SIDE;

verus! {

/// Length of one frame at the refresh rate of the handheld, in
/// microseconds: the 59.73rd part of a second.
pub const GBA_FRAME_MICROS: u64 = 16_742;

/// The span over which frames are counted, in microseconds.
pub const FPS_WINDOW_MICROS: u64 = 1_000_000;

/// The screen that is up.
#[derive(Clone, Copy, Debug, PartialEq, Eq, Structural)]
pub enum GameState {
    Title,
    Intro,
    Playing,
}

/// A piece of music.
#[derive(Clone, Copy, Debug, PartialEq, Eq, Structural)]
pub enum Track {
    Title,
    Indoors,
    Overworld,
}

/// What a key asks the caller to do.
#[derive(Clone, Copy, Debug, PartialEq, Eq, Structural)]
pub enum Effect {
    /// Nothing.
    Nothing,
    /// Switch the window between fullscreen and windowed.
    ToggleFullscreen,
    /// End the program.
    Exit,
    /// Stop all music.
    StopMusic,
    /// Start a track.
    Play(Track),
}

/// The cell the player faces: the neighbour, in the direction of the
/// facing, of the cell that holds the middle of the player's tile.
pub open spec fn faced_cell(p: PlayerView) -> (int, int) {
    (
        tile_of(p.position.x + HALF_TILE) + p.facing.dx(),
        tile_of(p.position.y + HALF_TILE) + p.facing.dy(),
    )
}

/// The interact key: toggles the door on the cell the player faces, if
/// there is one, and says whether it did.
pub fn interact<R: Room>(player: &Player, map: &mut WorldMap<R>) -> (changed: bool)
    requires
        player.wf(),
        old(map).wf(),
    ensures
        final(map).wf(),
        changed == is_door_at(old(map).grid(), faced_cell(player@).0, faced_cell(player@).1),
        final(map).is_toggled(old(map), faced_cell(player@).0, faced_cell(player@).1),
{
    let pos = player.get_position();
    let own_x: i64 = tile_index(pos.x as i64 + HALF_TILE);
    let own_y: i64 = tile_index(pos.y as i64 + HALF_TILE);
    let (dx, dy) = player.get_facing().delta();
    let tx: i64 = own_x + dx as i64;
    let ty: i64 = own_y + dy as i64;
    if tx < 0 || ty < 0 || tx >= MAX_SIDE as i64 || ty >= MAX_SIDE as i64 {
        return false;
    }
    if map.can_interact_tile(tx as usize, ty as usize, own_x as usize, own_y as usize) {
        map.interact_tile(tx as usize, ty as usize)
    } else {
        false
    }
}

/// The whole number of times the room fits into the largest area of the
/// window that has the proportions four to three, and at least one.
pub open spec fn scale_multiplier(win_w: int, win_h: int, map_w: int, map_h: int) -> int {
    let across = if 3 * win_w >= 4 * win_h {
        4 * win_h / (3 * map_w)
    } else {
        win_w / map_w
    };
    let down = if 3 * win_w >= 4 * win_h {
        win_h / map_h
    } else {
        3 * win_w / (4 * map_h)
    };
    let fit = if across < down {
        across
    } else {
        down
    };
    if fit < 1 {
        1
    } else {
        fit
    }
}

/// Computes [`scale_multiplier`] for a window and a room given in pixels.
pub fn fullscreen_multiplier(win_w: u32, win_h: u32, map_w: u32, map_h: u32) -> (mul: u32)
    requires
        map_w > 0,
        map_h > 0,
    ensures
        mul == scale_multiplier(win_w as int, win_h as int, map_w as int, map_h as int),
        mul >= 1,
{
    let ww: u64 = win_w as u64;
    let wh: u64 = win_h as u64;
    let mw: u64 = map_w as u64;
    let mh: u64 = map_h as u64;
    let wide: bool = 3 * ww >= 4 * wh;
    let across: u64 = if wide {
        4 * wh / (3 * mw)
    } else {
        ww / mw
    };
    let down: u64 = if wide {
        wh / mh
    } else {
        3 * ww / (4 * mh)
    };
    let fit: u64 = if across < down {
        across
    } else {
        down
    };
    assert(wh / mh <= wh) by (nonlinear_arith)
        requires
            mh >= 1,
            wh >= 0,
    ;
    assert(ww / mw <= ww) by (nonlinear_arith)
        requires
            mw >= 1,
            ww >= 0,
    ;
    if fit < 1 {
        1
    } else {
        fit as u32
    }
}

/// Whether `lines` are the four lines of the story the intro tells.
pub open spec fn is_story(lines: Seq<String>) -> bool {
    &&& lines.len() == 4
    &&& lines[0]@ == "In the fallen kingdom of Aster, shadows stir..."@
    &&& lines[1]@ == "You are the last guardian of the village of Ordo."@
    &&& lines[2]@ == "Monsters roam the wilds; your task is to survive and uncover the truth."@
    &&& lines[3]@ == "Prepare yourself..."@
}

/// The story the intro tells.
pub fn story() -> (lines: Vec<String>)
    ensures
        is_story(lines@),
{
    let mut lines: Vec<String> = Vec::new();
    lines.push("In the fallen kingdom of Aster, shadows stir...".to_owned());
    lines.push("You are the last guardian of the village of Ordo.".to_owned());
    lines.push(
        "Monsters roam the wilds; your task is to survive and uncover the truth.".to_owned(),
    );
    lines.push("Prepare yourself...".to_owned());
    lines
}

/// The state of a running game.
pub struct Game {
    pub player: Player,
    pub map: WorldMap<GridRoom>,
    pub enemies: Vec<Enemy>,
    pub state: GameState,
    pub title_screen: TitleScreen,
    pub intro: Intro,
    pub options: Options,
    /// How many times larger than fitted the room is drawn in fullscreen.
    pub fullscreen_scale_mul: u32,
    /// The track that was started last and not stopped since.
    pub current_music: Option<Track>,
    /// Time since the frame counter was last read off, in microseconds.
    pub fps_timer: u64,
    /// Frames since the counter was last read off.
    pub fps_counter: u32,
    /// Frames counted in the last full second.
    pub fps_display: u32,
    /// Time not yet used up by frames at the handheld's rate.
    pub frame_limiter_accumulator: u64,
}

impl Game {
    /// Player, map and enemies are valid, and an intro that is up has not
    /// run past its end.
    pub open spec fn wf(&self) -> bool {
        &&& self.player.wf()
        &&& self.map.wf()
        &&& forall|i: int| 0 <= i < self.enemies@.len() ==> (#[trigger] self.enemies@[i]).wf()
        &&& self.intro.lines@.len() < usize::MAX
        &&& self.state == GameState::Intro ==> self.intro.index <= self.intro.lines@.len()
        &&& self.fps_timer < FPS_WINDOW_MICROS
    }

    /// Whether a tick of `dt_micros` runs a frame. With the handheld's
    /// refresh rate switched on, a frame runs only when a frame's time has
    /// come together.
    pub open spec fn frame_due(&self, dt_micros: int) -> bool {
        !self.options.gba_refresh_rate || self.frame_limiter_accumulator + dt_micros
            >= GBA_FRAME_MICROS
    }

    /// Whether a tick of `dt_micros` runs the screen that is up: a frame is
    /// due and the options menu is hidden.
    pub open spec fn screen_runs(&self, dt_micros: int) -> bool {
        self.frame_due(dt_micros) && !self.options.visible
    }

    /// Whether a tick of `dt_micros` moves the world.
    pub open spec fn world_runs(&self, dt_micros: int) -> bool {
        self.screen_runs(dt_micros) && self.state == GameState::Playing
    }

    /// Whether a tick of `dt_micros` ends the intro.
    pub open spec fn intro_ends(&self, dt_micros: int) -> bool {
        &&& self.intro_runs(dt_micros)
        &&& self.intro.times_out(dt_micros)
        &&& self.intro.ends_after(self.intro.index as int)
    }

    /// The track a tick of `dt_micros` starts, if any: the indoors track
    /// when the intro ends, the title track when the title is up and no
    /// music plays. A track that plays already is not started again.
    pub open spec fn cue(&self, dt_micros: int) -> Option<Track> {
        if self.intro_ends(dt_micros) && self.current_music != Some(Track::Indoors) {
            Some(Track::Indoors)
        } else if self.screen_runs(dt_micros) && self.state == GameState::Title
            && self.current_music is None {
            Some(Track::Title)
        } else {
            None
        }
    }

    /// What is left in the frame limiter after a tick of `dt_micros`.
    pub open spec fn limiter_after(&self, dt_micros: int) -> int {
        if !self.options.gba_refresh_rate {
            self.frame_limiter_accumulator as int
        } else if self.frame_limiter_accumulator + dt_micros >= GBA_FRAME_MICROS {
            self.frame_limiter_accumulator + dt_micros - GBA_FRAME_MICROS
        } else {
            self.frame_limiter_accumulator + dt_micros
        }
    }

    /// Whether a tick of `dt_micros` completes a second of counted frames.
    pub open spec fn second_is_up(&self, dt_micros: int) -> bool {
        self.fps_timer + dt_micros >= FPS_WINDOW_MICROS
    }

    /// The frame counter after a tick of `dt_micros`, as timer, counter and
    /// display. A frame that is due is counted; when that completes a
    /// second, the count goes on display and the counting starts again.
    pub open spec fn frames_after(&self, dt_micros: int) -> (int, int, int) {
        if !self.frame_due(dt_micros) {
            (self.fps_timer as int, self.fps_counter as int, self.fps_display as int)
        } else if self.second_is_up(dt_micros) {
            (0, 0, self.fps_counter + 1)
        } else {
            (self.fps_timer + dt_micros, self.fps_counter + 1, self.fps_display as int)
        }
    }

    /// The frame counter as timer, counter and display.
    pub open spec fn frames(&self) -> (int, int, int) {
        (self.fps_timer as int, self.fps_counter as int, self.fps_display as int)
    }

    /// Whether a tick of `dt_micros` runs the intro.
    pub open spec fn intro_runs(&self, dt_micros: int) -> bool {
        self.screen_runs(dt_micros) && self.state == GameState::Intro
    }

    /// Whether this game and `other` show the same: they differ at most in
    /// their frame limiter and frame counter.
    pub open spec fn shows_the_same(&self, other: &Game) -> bool {
        &&& self.player == other.player
        &&& self.map == other.map
        &&& self.enemies == other.enemies
        &&& self.state == other.state
        &&& self.title_screen == other.title_screen
        &&& self.intro == other.intro
        &&& self.options == other.options
        &&& self.fullscreen_scale_mul == other.fullscreen_scale_mul
        &&& self.current_music == other.current_music
    }

    /// The game after a key that the options menu takes. X shows or hides
    /// the menu. While the menu is shown, C hides it and every other key
    /// goes to it; switching the refresh rate empties the frame limiter.
    pub open spec fn menu_takes(&self, key: Key) -> bool {
        key == Key::X || self.options.visible
    }

    /// The options menu after `key`.
    pub open spec fn options_after(&self, key: Key) -> Options {
        if key == Key::X {
            Options { visible: !self.options.visible, ..self.options.at_top() }
        } else if !self.options.visible {
            self.options
        } else if key == Key::C {
            Options { visible: false, ..self.options }
        } else {
            self.options.after_key(key)
        }
    }

    /// The action that the options menu asks for on `key`.
    pub open spec fn menu_action(&self, key: Key) -> Option<MenuAction> {
        if key == Key::X || key == Key::C {
            None
        } else {
            self.options.action_of(key)
        }
    }

    /// Whether `key` takes the game from the title to the intro.
    pub open spec fn leaves_title(&self, key: Key) -> bool {
        !self.menu_takes(key) && self.state == GameState::Title && TitleScreen::starts_game(key)
    }

    /// Whether `key` goes to the intro.
    pub open spec fn intro_takes(&self, key: Key) -> bool {
        !self.menu_takes(key) && self.state == GameState::Intro && key == Key::Z
    }

    /// Whether `key` takes the game from the intro into play.
    pub open spec fn leaves_intro(&self, key: Key) -> bool {
        self.intro_takes(key) && self.intro.ends_after(self.intro.index as int)
    }

    /// Whether `key` makes the player interact with the cell it faces.
    pub open spec fn interacts(&self, key: Key) -> bool {
        !self.menu_takes(key) && self.state == GameState::Playing && key == Key::Z
    }

    /// What `key` asks the caller to do.
    pub open spec fn effect_of(&self, key: Key) -> Effect {
        if self.menu_takes(key) {
            match self.menu_action(key) {
                Some(MenuAction::ToggleFullscreen) => Effect::ToggleFullscreen,
                Some(MenuAction::Exit) => Effect::Exit,
                _ => Effect::Nothing,
            }
        } else if self.leaves_title(key) {
            Effect::StopMusic
        } else if self.leaves_intro(key) && self.current_music != Some(Track::Indoors) {
            Effect::Play(Track::Indoors)
        } else {
            Effect::Nothing
        }
    }

    /// A new game: the title is up, the player is in bed, no enemy is about,
    /// and the intro tells its story from the start.
    pub fn new(title_screen: TitleScreen) -> (g: Game)
        ensures
            g.wf(),
            g.state == GameState::Title,
            g.enemies@.len() == 0,
            is_story(g.intro.lines@),
            g.intro.index == 0,
            g.intro.timer == 0,
            g.title_screen == title_screen,
            g.current_music is None,
            g.fullscreen_scale_mul == 1,
            g.options == Options::new_menu(),
            g.player@ == Player::at_start(),
            g.map.room_count() == 1,
            g.map.current_index() == 0,
            g.map.grid() == initial_grid(20, 15),
            keeps_layout(g.map.grid()),
            forall|from_x: int, from_y: int, to_x: int, to_y: int|
                #[trigger] g.map.step_rule(from_x, from_y, to_x, to_y) == nook_rule(
                    initial_grid(20, 15),
                    from_x,
                    from_y,
                    to_x,
                    to_y,
                ),
            g.fps_timer == 0,
            g.fps_counter == 0,
            g.fps_display == 0,
            g.frame_limiter_accumulator == 0,
    {
        Game {
            player: Player::new(),
            map: WorldMap::new(),
            enemies: Vec::new(),
            state: GameState::Title,
            title_screen,
            intro: Intro::new(story()),
            options: Options::new(),
            fullscreen_scale_mul: 1,
            current_music: None,
            fps_timer: 0,
            fps_counter: 0,
            fps_display: 0,
            frame_limiter_accumulator: 0,
        }
    }

    /// Notes that a track was started. Returns whether the caller is to
    /// start it: a track that plays already is left alone.
    pub fn set_music(&mut self, track: Track) -> (start: bool)
        ensures
            start == (old(self).current_music != Some(track)),
            *final(self) == (Game { current_music: Some(track), ..*old(self) }),
    {
        let start: bool = match self.current_music {
            Some(playing) => playing != track,
            None => true,
        };
        self.current_music = Some(track);
        start
    }

    /// Notes that all music was stopped.
    pub fn stop_music(&mut self)
        ensures
            *final(self) == (Game { current_music: None, ..*old(self) }),
    {
        self.current_music = None;
    }
}

impl Game {
    /// Runs the frame limiter and the frame counter for a tick, and says
    /// whether a frame is due.
    fn count_frame(&mut self, dt_micros: u64) -> (due: bool)
        requires
            old(self).fps_timer < FPS_WINDOW_MICROS,
            old(self).fps_counter < u32::MAX,
            old(self).frame_limiter_accumulator + dt_micros <= u64::MAX,
        ensures
            due == old(self).frame_due(dt_micros as int),
            final(self).frame_limiter_accumulator == old(self).limiter_after(dt_micros as int),
            final(self).frames() == old(self).frames_after(dt_micros as int),
            final(self).fps_timer < FPS_WINDOW_MICROS,
            final(self).shows_the_same(old(self)),
    {
        if self.options.gba_refresh_rate {
            self.frame_limiter_accumulator += dt_micros;
            if self.frame_limiter_accumulator < GBA_FRAME_MICROS {
                return false;
            }
            self.frame_limiter_accumulator -= GBA_FRAME_MICROS;
        }
        self.fps_counter += 1;
        let shown: u128 = self.fps_timer as u128 + dt_micros as u128;
        if shown >= FPS_WINDOW_MICROS as u128 {
            self.fps_display = self.fps_counter;
            self.fps_counter = 0;
            self.fps_timer = 0;
        } else {
            self.fps_timer = shown as u64;
        }
        true
    }

    /// Moves every enemy by one tick in pursuit of the player.
    fn update_enemies(&mut self, dt_micros: u64)
        requires
            old(self).wf(),
        ensures
            final(self).wf(),
            final(self).enemies@.len() == old(self).enemies@.len(),
            forall|i: int|
                0 <= i < old(self).enemies@.len() ==> (#[trigger] final(self).enemies@[i])@
                    == old(self).enemies@[i]@.tick(
                    old(self).player@.position,
                    dt_micros as int,
                    old(self).map,
                ),
            final(self).player == old(self).player,
            final(self).map == old(self).map,
            final(self).state == old(self).state,
            final(self).title_screen == old(self).title_screen,
            final(self).intro == old(self).intro,
            final(self).options == old(self).options,
            final(self).fullscreen_scale_mul == old(self).fullscreen_scale_mul,
            final(self).current_music == old(self).current_music,
            final(self).frames() == old(self).frames(),
            final(self).frame_limiter_accumulator == old(self).frame_limiter_accumulator,
    {
        let n: usize = self.enemies.len();
        let mut i: usize = 0;
        while i < n
            invariant
                i <= n,
                n == self.enemies@.len(),
                n == old(self).enemies@.len(),
                self.wf(),
                forall|j: int|
                    0 <= j < i ==> (#[trigger] self.enemies@[j])@ == old(self).enemies@[j]@.tick(
                        old(self).player@.position,
                        dt_micros as int,
                        old(self).map,
                    ),
                forall|j: int| i <= j < n ==> #[trigger] self.enemies@[j] == old(self).enemies@[j],
                self.player == old(self).player,
                self.map == old(self).map,
                self.state == old(self).state,
                self.title_screen == old(self).title_screen,
                self.intro == old(self).intro,
                self.options == old(self).options,
                self.fullscreen_scale_mul == old(self).fullscreen_scale_mul,
                self.current_music == old(self).current_music,
                self.fps_timer == old(self).fps_timer,
                self.fps_counter == old(self).fps_counter,
                self.fps_display == old(self).fps_display,
                self.frame_limiter_accumulator == old(self).frame_limiter_accumulator,
            decreases n - i,
        {
            assert(self.enemies@[i as int].wf());
            let ghost before = self.enemies@;
            self.enemies[i].update(dt_micros, &self.player, &self.map);
            assert forall|j: int| 0 <= j < self.enemies@.len() implies (
            #[trigger] self.enemies@[j]).wf() by {
                if j != i {
                    assert(self.enemies@[j] == before[j]);
                    assert(before[j].wf());
                }
            }
            i += 1;
        }
    }

    /// Advances the game by one tick of `dt_micros` microseconds with the
    /// given keys held, and returns the track the caller is to start, if
    /// any.
    ///
    /// The tick first runs the frame limiter and the frame counter. When a
    /// frame is due and the options menu is hidden, the screen that is up
    /// runs: in play the player moves and then every enemy, in pursuit of
    /// the player; the intro lets the time pass and goes into play when it
    /// ends; the title asks for its music when none plays.
    pub fn update(&mut self, keys: &HeldKeys, dt_micros: u64) -> (cue: Option<Track>)
        requires
            old(self).wf(),
            old(self).fps_counter < u32::MAX,
            old(self).frame_limiter_accumulator + dt_micros <= u64::MAX,
        ensures
            final(self).wf(),
            cue == old(self).cue(dt_micros as int),
            final(self).current_music == match cue {
                Some(t) => Some(t),
                None => old(self).current_music,
            },
            final(self).state == if old(self).intro_ends(dt_micros as int) {
                GameState::Playing
            } else {
                old(self).state
            },
            final(self).player@ == if old(self).world_runs(dt_micros as int) {
                old(self).player@.tick(*keys, dt_micros as int, old(self).map)
            } else {
                old(self).player@
            },
            final(self).enemies@.len() == old(self).enemies@.len(),
            forall|i: int|
                0 <= i < old(self).enemies@.len() ==> (#[trigger] final(self).enemies@[i])@
                    == if old(self).world_runs(dt_micros as int) {
                    old(self).enemies@[i]@.tick(
                        final(self).player@.position,
                        dt_micros as int,
                        old(self).map,
                    )
                } else {
                    old(self).enemies@[i]@
                },
            final(self).intro.lines == old(self).intro.lines,
            final(self).intro.auto_advance_micros == old(self).intro.auto_advance_micros,
            final(self).intro.timer == if old(self).intro_runs(dt_micros as int) {
                old(self).intro.timer_after(dt_micros as int)
            } else {
                old(self).intro.timer as int
            },
            final(self).intro.index == if old(self).intro_runs(dt_micros as int) {
                old(self).intro.index_after(dt_micros as int)
            } else {
                old(self).intro.index as int
            },
            final(self).frame_limiter_accumulator == old(self).limiter_after(dt_micros as int),
            final(self).frames() == old(self).frames_after(dt_micros as int),
            final(self).map == old(self).map,
            final(self).options == old(self).options,
            final(self).title_screen == old(self).title_screen,
            final(self).fullscreen_scale_mul == old(self).fullscreen_scale_mul,
    {
        if !self.count_frame(dt_micros) {
            return None;
        }
        if self.options.visible {
            return None;
        }
        match self.state {
            GameState::Playing => {
                self.player.update(keys, dt_micros, &self.map);
                self.update_enemies(dt_micros);
                None
            },
            GameState::Intro => {
                if self.intro.update(dt_micros) {
                    self.state = GameState::Playing;
                    if self.set_music(Track::Indoors) {
                        Some(Track::Indoors)
                    } else {
                        None
                    }
                } else {
                    None
                }
            },
            GameState::Title => {
                if self.current_music.is_none() {
                    self.set_music(Track::Title);
                    Some(Track::Title)
                } else {
                    None
                }
            },
        }
    }

    /// Handles a key press and returns what the caller is to do.
    ///
    /// X shows or hides the options menu at any time. While the menu is
    /// shown it takes every key: C hides it, the others go to it, and
    /// switching the refresh rate empties the frame limiter. Otherwise the
    /// key goes to the screen that is up: Return or Space on the title
    /// starts the intro from its first line and stops the music; Z in the
    /// intro goes to the next line, and into play with the indoors track
    /// after the last; Z in play interacts with the cell the player faces.
    pub fn key_down(&mut self, key: Key) -> (effect: Effect)
        requires
            old(self).wf(),
        ensures
            final(self).wf(),
            effect == old(self).effect_of(key),
            final(self).options == old(self).options_after(key),
            final(self).state == if old(self).leaves_title(key) {
                GameState::Intro
            } else if old(self).leaves_intro(key) {
                GameState::Playing
            } else {
                old(self).state
            },
            final(self).current_music == if old(self).leaves_title(key) {
                None
            } else if old(self).leaves_intro(key) {
                Some(Track::Indoors)
            } else {
                old(self).current_music
            },
            final(self).intro.lines == old(self).intro.lines,
            final(self).intro.auto_advance_micros == old(self).intro.auto_advance_micros,
            final(self).intro.timer == if old(self).leaves_title(key) || old(self).intro_takes(
                key,
            ) {
                0
            } else {
                old(self).intro.timer
            },
            final(self).intro.index == if old(self).leaves_title(key) {
                0
            } else if old(self).intro_takes(key) {
                (old(self).intro.index + 1) as usize
            } else {
                old(self).intro.index
            },
            old(self).interacts(key) ==> final(self).map.is_toggled(
                &old(self).map,
                faced_cell(old(self).player@).0,
                faced_cell(old(self).player@).1,
            ),
            !old(self).interacts(key) ==> final(self).map == old(self).map,
            final(self).frame_limiter_accumulator == if old(self).menu_takes(key)
                && old(self).menu_action(key) == Some(MenuAction::ToggleGbaRefresh) {
                0
            } else {
                old(self).frame_limiter_accumulator
            },
            final(self).player == old(self).player,
            final(self).enemies == old(self).enemies,
            final(self).title_screen == old(self).title_screen,
            final(self).fullscreen_scale_mul == old(self).fullscreen_scale_mul,
            final(self).frames() == old(self).frames(),
    {
        if key == Key::X {
            self.options.toggle();
            return Effect::Nothing;
        }
        if self.options.visible {
            if key == Key::C {
                self.options.visible = false;
                return Effect::Nothing;
            }
            return match self.options.press(key) {
                Some(MenuAction::ToggleFullscreen) => Effect::ToggleFullscreen,
                Some(MenuAction::ToggleGbaRefresh) => {
                    self.frame_limiter_accumulator = 0;
                    Effect::Nothing
                },
                Some(MenuAction::Exit) => Effect::Exit,
                _ => Effect::Nothing,
            };
        }
        match self.state {
            GameState::Title => {
                if self.title_screen.handle_input(key) {
                    self.stop_music();
                    self.state = GameState::Intro;
                    self.intro.restart();
                    Effect::StopMusic
                } else {
                    Effect::Nothing
                }
            },
            GameState::Intro => {
                if self.intro.handle_input(key) {
                    self.state = GameState::Playing;
                    if self.set_music(Track::Indoors) {
                        Effect::Play(Track::Indoors)
                    } else {
                        Effect::Nothing
                    }
                } else {
                    Effect::Nothing
                }
            },
            GameState::Playing => {
                if key == Key::Z {
                    interact(&self.player, &mut self.map);
                }
                Effect::Nothing
            },
        }
    }
}

} // verus!
