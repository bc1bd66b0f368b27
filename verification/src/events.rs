//! What reaches the controller from outside: dial events, user-interface
//! messages and the per-cycle readings of the clock and the video player.

use vstd::prelude::*;

verus! {

/// The sense in which the dial was turned by one detent.
#[derive(Clone, Copy, PartialEq, Eq, Debug, Structural)]
pub enum DialDirection {
    Clockwise,
    Counterclockwise,
}

/// One event popped from the dial's queue.
#[derive(Clone, Copy, PartialEq, Eq, Debug, Structural)]
pub enum DialEvent {
    /// The dial moved by one detent.
    Rotate { direction: DialDirection },
    /// The dial's button went down (`pressed`) or came up.
    Button { pressed: bool },
    /// The device connected or disconnected.
    Connection,
}

/// Keys the controller distinguishes.
#[derive(Clone, Copy, PartialEq, Eq, Debug, Structural)]
pub enum KeyCode {
    Right,
    Other,
}

/// One message delivered to the controller.
#[derive(Clone, Debug)]
pub enum Message {
    /// A timer cycle, with the dial event popped for it, if there was one.
    ProcessDialEvents(Option<DialEvent>),
    /// The text of the active input field changed to the given text.
    TextInputChanged(String),
    /// The on-screen button was pressed.
    ButtonPressed,
    /// The choice with the given index was selected.
    RadioSelected(u32),
    KeyPressed(KeyCode),
    KeyReleased(KeyCode),
}

/// Where the video player is, in milliseconds.
#[derive(Clone, Copy, PartialEq, Eq, Debug, Structural)]
pub struct VideoStatus {
    pub position_ms: u64,
    pub duration_ms: u64,
}

/// The readings taken for one controller cycle.
#[derive(Clone, Copy, PartialEq, Eq, Debug, Structural)]
pub struct Frame {
    /// A monotonic clock, in milliseconds.
    pub clock_ms: u64,
    /// The state of the video player, if a video is loaded.
    pub video: Option<VideoStatus>,
}

} // verus!
