//! The generic game state: window parameters, input state, timing,
//! and the user's own state value.

use vstd::prelude::*;

use crate::color::Color;
use crate::input::Keys;

verus! {

/// Holds the generic state for the game; roughly, the window.
#[derive(Debug, Clone)]
pub struct GameState<T> {
    /// The window title.
    pub title: String,
    /// The window width, in pixels.
    pub width: u32,
    /// The window height, in pixels.
    pub height: u32,
    /// The color the frame is cleared with; `None` means the screen
    /// is never cleared (prior frame content persists).
    pub clear_color: Option<Color>,
    /// The user's own state.
    pub state: T,
    /// The current key states.
    pub keys: Keys,
    /// The frame budget, in milliseconds per frame.
    pub fps: u128,
    /// The time the last frame took, in milliseconds.
    pub delta: u128,
    /// The mouse's horizontal position, in engine coordinates.
    pub mouse_x: i32,
    /// The mouse's vertical position, in engine coordinates.
    pub mouse_y: i32,
    /// The change in the scroll wheel this frame, in engine
    /// coordinates.
    pub scroll: i32,
    /// Whether the engine closes when the OS asks it to. Defaults to
    /// false until the game opts in.
    pub close_on_request: bool,
    /// Whether the OS has asked the engine to close.
    pub asked_to_close: bool,
}

impl<T> GameState<T> {
    /// Initiates the game state.
    ///
    /// `width` and `height` default to 640 and 480; `fps` (frames
    /// per second) defaults to 100 and is stored as a per-frame
    /// millisecond budget of `1000 / fps`. A requested rate of zero
    /// has no budget and is excluded. If `clear_color` is `None`,
    /// the screen is never cleared.
    pub fn new(
        state: T,
        title: String,
        width: Option<u32>,
        height: Option<u32>,
        fps: Option<u128>,
        clear_color: Option<Color>,
    ) -> (r: GameState<T>)
        requires
            fps matches Some(f) ==> f != 0,
        ensures
            r.title == title,
            r.width == match width {
                Some(w) => w,
                None => 640u32,
            },
            r.height == match height {
                Some(h) => h,
                None => 480u32,
            },
            r.fps == 1000 as u128 / (match fps {
                Some(f) => f,
                None => 100u128,
            }),
            r.clear_color == clear_color,
            r.delta == 0,
            r.mouse_x == 0,
            r.mouse_y == 0,
            r.scroll == 0,
            r.close_on_request == false,
            r.asked_to_close == false,
            r.keys.view_spec() == Seq::new(87, |i: int| false),
    {
        let width = match width {
            Some(w) => w,
            None => 640,
        };
        let height = match height {
            Some(h) => h,
            None => 480,
        };
        let fps = match fps {
            Some(f) => f,
            None => 100,
        };
        GameState {
            title,
            width,
            height,
            clear_color,
            state,
            keys: Keys::new(),
            fps: 1000 / fps,
            delta: 0,
            mouse_x: 0,
            mouse_y: 0,
            scroll: 0,
            close_on_request: false,
            asked_to_close: false,
        }
    }
}

} // verus!
