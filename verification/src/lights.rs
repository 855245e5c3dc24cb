//! Small free-standing value types: a traffic light and a house light.

use vstd::prelude::*;

verus! {

/// The colour a traffic light shows.
#[derive(Debug, Clone, Copy, PartialEq, Eq, Structural)]
pub enum TrafficLightColor {
    Red,
    Yellow,
    Green,
}

/// A traffic light; it starts red and can be switched to green.
#[derive(Debug)]
pub struct TrafficLight {
    /// The colour currently shown.
    pub color: TrafficLightColor,
}

impl TrafficLight {
    /// A new light shows red.
    pub fn new() -> (r: Self)
        ensures
            r.color == TrafficLightColor::Red,
    {
        Self { color: TrafficLightColor::Red }
    }

    /// The colour the light currently shows.
    pub fn get_state(&self) -> (r: &TrafficLightColor)
        ensures
            *r == self.color,
    {
        &self.color
    }

    /// Switches the light to green.
    pub fn turn_green(&mut self)
        ensures
            final(self).color == TrafficLightColor::Green,
    {
        self.color = TrafficLightColor::Green;
    }
}

/// A house light; it starts switched off.
#[derive(Debug)]
pub struct HouseLight {
    /// Whether the light is on.
    pub on: bool,
}

impl HouseLight {
    /// A new light is off.
    pub fn new() -> (r: Self)
        ensures
            !r.on,
    {
        Self { on: false }
    }

    /// Whether the light is on.
    pub fn get_state(&self) -> (r: bool)
        ensures
            r == self.on,
    {
        self.on
    }
}

} // verus!
