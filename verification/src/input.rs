//! What the window says: which key is held down, and what its messages mean
//! for the frame loop.

use vstd::prelude::*;

verus! {

/// Remembers the virtual key code of the key that was pressed last, or zero
/// when no key is down.
pub struct InputManager {
    pub input: u8,
}

/// Window message: the message loop is to end.
pub const WM_QUIT: u32 = 0x0012;

/// Window message: a key was pressed.
pub const WM_KEYDOWN: u32 = 0x0100;

/// Window message: a key was released.
pub const WM_KEYUP: u32 = 0x0101;

/// Window message: the window's size has changed.
pub const WM_SIZE: u32 = 0x0005;

/// What a window message means for the frame loop.
#[derive(Clone, Copy, Debug, PartialEq, Eq, Structural)]
pub enum WindowEvent {
    /// Nothing that the frame loop has to act on.
    Idle,
    /// The window's client area has the given size now.
    Resized { width: u32, height: u32 },
    /// The window is to be closed.
    Quit,
}

/// What a message means for the frame loop. The size of a resized window is
/// held in the two lower 16-bit words of `lparam`, the width in the lower.
pub open spec fn event_of(message: u32, lparam: u32) -> WindowEvent {
    if message == WM_QUIT {
        WindowEvent::Quit
    } else if message == WM_SIZE {
        WindowEvent::Resized { width: lparam & 0xffff, height: lparam >> 16 }
    } else {
        WindowEvent::Idle
    }
}

/// The key that is down after a message: the key that the message names
/// for a key press, none for a release, the same as before otherwise.
pub open spec fn key_after(key: u8, message: u32, wparam: u8) -> u8 {
    if message == WM_KEYDOWN {
        wparam
    } else if message == WM_KEYUP {
        0
    } else {
        key
    }
}

/// A step along the three axes, each of them -1, 0 or 1.
#[derive(Clone, Copy, Debug, PartialEq, Eq, Structural)]
pub struct Direction {
    pub x: i8,
    pub y: i8,
    pub z: i8,
}

/// The key codes that move the camera.
pub const KEY_W: u8 = 87;

pub const KEY_S: u8 = 83;

pub const KEY_A: u8 = 65;

pub const KEY_D: u8 = 68;

pub const KEY_J: u8 = 74;

pub const KEY_K: u8 = 75;

/// The way that a key moves the camera: W and S along z, A and D along x, J
/// and K along y; any other key, and no key, not at all.
pub open spec fn direction_of(key: u8) -> Direction {
    if key == KEY_W {
        Direction { x: 0, y: 0, z: -1i8 }
    } else if key == KEY_S {
        Direction { x: 0, y: 0, z: 1 }
    } else if key == KEY_A {
        Direction { x: 1, y: 0, z: 0 }
    } else if key == KEY_D {
        Direction { x: -1i8, y: 0, z: 0 }
    } else if key == KEY_J {
        Direction { x: 0, y: 1, z: 0 }
    } else if key == KEY_K {
        Direction { x: 0, y: -1i8, z: 0 }
    } else {
        Direction { x: 0, y: 0, z: 0 }
    }
}

impl InputManager {
    /// No key is down.
    pub fn new() -> (manager: Self)
        ensures
            manager.input == 0,
    {
        Self { input: 0 }
    }

    /// Takes `input` as the key that is down now; zero stands for a release.
    pub fn register(&mut self, input: u8)
        ensures
            final(self).input == input,
    {
        self.input = input
    }

    /// Takes in one window message: remembers which key is down, and says
    /// what the message means for the frame loop. `wparam` is the lowest
    /// byte of the message's first parameter, `lparam` the lower half of its
    /// second.
    pub fn handle_message(&mut self, message: u32, wparam: u8, lparam: u32) -> (event: WindowEvent)
        ensures
            final(self).input == key_after(old(self).input, message, wparam),
            event == event_of(message, lparam),
    {
        if message == WM_QUIT {
            WindowEvent::Quit
        } else if message == WM_KEYDOWN {
            self.register(wparam);
            WindowEvent::Idle
        } else if message == WM_KEYUP {
            self.register(0);
            WindowEvent::Idle
        } else if message == WM_SIZE {
            WindowEvent::Resized { width: lparam & 0xffff, height: lparam >> 16 }
        } else {
            WindowEvent::Idle
        }
    }

    /// The way that the key that is down moves the camera.
    pub fn direction(&self) -> (direction: Direction)
        ensures
            direction == direction_of(self.input),
    {
        let key = self.input;
        if key == KEY_W {
            Direction { x: 0, y: 0, z: -1 }
        } else if key == KEY_S {
            Direction { x: 0, y: 0, z: 1 }
        } else if key == KEY_A {
            Direction { x: 1, y: 0, z: 0 }
        } else if key == KEY_D {
            Direction { x: -1, y: 0, z: 0 }
        } else if key == KEY_J {
            Direction { x: 0, y: 1, z: 0 }
        } else if key == KEY_K {
            Direction { x: 0, y: -1, z: 0 }
        } else {
            Direction { x: 0, y: 0, z: 0 }
        }
    }
}

} // verus!
