//! State of the input and render loop: the flash countdown, the colour it
//! selects, and the handling of one event.

use crate::event::classify;
use crate::event::reaction_to;
use crate::event::InputEvent;
use crate::event::Reaction;
use crate::trigger::TriggerFlag;
use vstd::prelude::*;

verus! {

/// Nominal length of the flash in nanoseconds: three frames at 60 frames per
/// second. How long the flash is seen depends on the frame times measured.
pub const FLASH_DURATION_NANOS: i64 = 50_000_000;

/// Width of the window at creation, in pixels.
pub const WINDOW_WIDTH: u32 = 1366;

/// Height of the window at creation, in pixels.
pub const WINDOW_HEIGHT: u32 = 768;

/// An opaque fill colour.
#[derive(Clone, Copy, Debug, PartialEq, Eq, Structural)]
pub struct Color {
    pub r: u8,
    pub g: u8,
    pub b: u8,
}

/// Fill colour while the flash lasts: magenta.
pub open spec fn flash_color() -> Color {
    Color { r: 255, g: 0, b: 255 }
}

/// Fill colour otherwise: teal.
pub open spec fn idle_color() -> Color {
    Color { r: 0, g: 180, b: 180 }
}

/// Fill colour for a countdown that stands at `remaining` nanoseconds. Only
/// the sign counts.
pub open spec fn color_for(remaining: int) -> Color {
    if remaining > 0 {
        flash_color()
    } else {
        idle_color()
    }
}

/// A countdown that stood at `remaining` nanoseconds, after `elapsed` more
/// have passed. It runs on below zero and stops only at the least value its
/// representation holds.
pub open spec fn countdown(remaining: int, elapsed: int) -> int {
    if remaining - elapsed < i64::MIN {
        i64::MIN as int
    } else {
        remaining - elapsed
    }
}

/// The loop's own state. The trigger cell is shared and passed in.
pub struct InputRenderLoop {
    flash_nanos: i64,
}

impl InputRenderLoop {
    /// Nanoseconds of flash that remain; zero or less when the flash is over.
    pub closed spec fn flash_remaining(&self) -> int {
        self.flash_nanos as int
    }

    /// Whether the flash colour is showing.
    pub open spec fn flashing(&self) -> bool {
        self.flash_remaining() > 0
    }

    /// A loop that shows no flash.
    pub fn new() -> (state: InputRenderLoop)
        ensures
            state.flash_remaining() == 0,
    {
        InputRenderLoop { flash_nanos: 0 }
    }

    /// Nanoseconds of flash that remain.
    pub fn flash_remaining_nanos(&self) -> (remaining: i64)
        ensures
            remaining == self.flash_remaining(),
    {
        self.flash_nanos
    }

    /// Handles one event, in arrival order. Returns the reaction it called
    /// for; on `Reaction::Quit` the caller leaves the loop.
    ///
    /// On a triggering event the trigger is raised on `trigger` and the flash
    /// countdown restarts from its nominal length. Any other event leaves the
    /// countdown as it was and does not touch `trigger`.
    pub fn handle_event(&mut self, event: InputEvent, trigger: &TriggerFlag) -> (reaction: Reaction)
        ensures
            reaction == reaction_to(event),
            final(self).flash_remaining() == if reaction.triggers() {
                FLASH_DURATION_NANOS as int
            } else {
                old(self).flash_remaining()
            },
    {
        let reaction = classify(event);
        if reaction.is_trigger() {
            trigger.set();
            self.flash_nanos = FLASH_DURATION_NANOS;
        }
        reaction
    }

    /// The colour to fill the window with.
    pub fn color(&self) -> (fill: Color)
        ensures
            fill == color_for(self.flash_remaining()),
    {
        if self.flash_nanos > 0 {
            Color { r: 255, g: 0, b: 255 }
        } else {
            Color { r: 0, g: 180, b: 180 }
        }
    }

    /// Takes the time measured since the previous iteration off the flash
    /// countdown.
    pub fn tick(&mut self, elapsed_nanos: u128)
        ensures
            final(self).flash_remaining() == countdown(
                old(self).flash_remaining(),
                elapsed_nanos as int,
            ),
    {
        let room: u128 = (self.flash_nanos as i128 - i64::MIN as i128) as u128;
        if elapsed_nanos >= room {
            self.flash_nanos = i64::MIN;
        } else {
            self.flash_nanos = (self.flash_nanos as i128 - elapsed_nanos as i128) as i64;
        }
    }
}

/// The flash colour shows exactly while less time has been taken off the
/// countdown than it stood at.
pub proof fn lemma_flash_ends_when_time_is_up(remaining: int, elapsed: int)
    requires
        i64::MIN <= remaining <= i64::MAX,
        elapsed >= 0,
    ensures
        color_for(countdown(remaining, elapsed)) == flash_color() <==> elapsed < remaining,
{
}

/// Taking time off in two steps leaves the countdown where one step of the
/// sum leaves it: the frame rate does not move the end of the flash.
pub proof fn lemma_ticks_accumulate(remaining: int, first: int, second: int)
    requires
        i64::MIN <= remaining <= i64::MAX,
        first >= 0,
        second >= 0,
    ensures
        countdown(countdown(remaining, first), second) == countdown(remaining, first + second),
{
}

} // verus!
