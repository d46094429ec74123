//! What a step of the interpreter tells the outside world: the surface that
//! presents the display and the tone generator.
//!
//! The interpreter performs no output of its own. Each step returns its
//! signals as a value, and whoever drives the interpreter passes them on.
use vstd::prelude::*;

verus! {

/// What a step tells the tone generator.
#[derive(Copy, Clone, PartialEq, Eq, Structural, Debug)]
pub enum BuzzerSignal {
    /// Leave the tone as it is.
    Unchanged,
    /// Start the tone.
    Play,
    /// Stop the tone.
    Pause,
}

/// What a step tells the surface that presents the display.
#[derive(PartialEq, Eq, Debug)]
pub enum DisplaySignal {
    /// The display did not change.
    Unchanged,
    /// Every pixel has been turned off.
    Clear,
    /// A sprite was drawn at column `x`, row `y`. `update` holds, for each of
    /// its rows from the top, the eight pixels the display now shows there.
    Draw { x: u8, y: u8, update: Vec<Vec<bool>> },
}

/// A [`DisplaySignal`] as plain values.
pub enum DisplayEffect {
    Unchanged,
    Clear,
    Draw { x: u8, y: u8, update: Seq<Seq<bool>> },
}

impl View for DisplaySignal {
    type V = DisplayEffect;

    open spec fn view(&self) -> DisplayEffect {
        match self {
            DisplaySignal::Unchanged => DisplayEffect::Unchanged,
            DisplaySignal::Clear => DisplayEffect::Clear,
            DisplaySignal::Draw { x, y, update } => DisplayEffect::Draw {
                x: *x,
                y: *y,
                update: Seq::new(update@.len(), |line: int| update@[line]@),
            },
        }
    }
}

/// What one step tells the outside world.
#[derive(PartialEq, Eq, Debug)]
pub struct Signals {
    pub display: DisplaySignal,
    pub buzzer: BuzzerSignal,
}

/// [`Signals`] as plain values.
pub struct Effects {
    pub display: DisplayEffect,
    pub buzzer: BuzzerSignal,
}

impl View for Signals {
    type V = Effects;

    open spec fn view(&self) -> Effects {
        Effects { display: self.display@, buzzer: self.buzzer }
    }
}

} // verus!
