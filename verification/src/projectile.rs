//! A projectile in flight and the environment that acts on it.

use vstd::prelude::*;
use vstd::string::StringExecFns;
use std::fmt::Display;
use crate::float_service::{Scalar, exact};
use crate::tuple::{Tuple, shown};

verus! {

/// A projectile: where it is, a point, and how it moves in one tick, a
/// vector.
#[derive(Debug, Clone, Copy)]
pub struct Projectile<T> {
    pub position: Tuple<T>,
    pub velocity: Tuple<T>,
}

/// What changes the velocity of a projectile in each tick.
#[derive(Debug, Clone, Copy)]
pub struct Environment<T> {
    pub gravity: Tuple<T>,
    pub wind: Tuple<T>,
}

impl<T: Scalar> Projectile<T> {
    /// The operations of one tick may be applied.
    pub open spec fn tick_defined(self, environment: Environment<T>) -> bool {
        &&& self.position.plus_defined(self.velocity)
        &&& self.velocity.plus_defined(environment.gravity)
        &&& self.velocity.plus(environment.gravity).plus_defined(environment.wind)
    }

    /// The projectile at `position` with `velocity`.
    pub fn new(position: Tuple<T>, velocity: Tuple<T>) -> (r: Self)
        ensures
            r == (Projectile { position, velocity }),
    {
        Self { position, velocity }
    }

    /// One tick: the position moves by the velocity, and the velocity
    /// changes by the gravity and then by the wind.
    pub fn tick(&mut self, environment: Environment<T>)
        requires
            exact::<T>(),
            old(self).tick_defined(environment),
        ensures
            final(self).position == old(self).position.plus(old(self).velocity),
            final(self).velocity == old(self).velocity.plus(environment.gravity).plus(
                environment.wind,
            ),
    {
        self.position = self.position + self.velocity;
        self.velocity = self.velocity + environment.gravity + environment.wind;
    }
}

impl<T: Scalar> Environment<T> {
    /// The environment with the gravity and the wind given.
    pub fn new(gravity: Tuple<T>, wind: Tuple<T>) -> (r: Self)
        ensures
            r == (Environment { gravity, wind }),
    {
        Self { gravity, wind }
    }
}

impl<T: Display> Projectile<T> {
    /// The projectile as text: the text of the position behind
    /// `position: ` and the text of the velocity behind ` - velocity: `.
    pub fn to_string(&self) -> (r: String)
        ensures
            exists|position: Seq<char>, velocity: Seq<char>|
                {
                    &&& shown(self.position, position)
                    &&& shown(self.velocity, velocity)
                    &&& r@ == #[trigger] described(position, velocity)
                },
    {
        let position = self.position.to_string();
        let velocity = self.velocity.to_string();
        let mut text = String::from_str("position: ");
        text.append(position.as_str());
        text.append(" - velocity: ");
        text.append(velocity.as_str());
        proof {
            reveal_strlit("position: ");
            reveal_strlit(" - velocity: ");
            assert(text@ =~= described(position@, velocity@));
        }
        text
    }
}

/// The texts of a position and of a velocity behind their labels.
pub open spec fn described(position: Seq<char>, velocity: Seq<char>) -> Seq<char> {
    seq!['p', 'o', 's', 'i', 't', 'i', 'o', 'n', ':', ' '] + position + seq![
        ' ',
        '-',
        ' ',
        'v',
        'e',
        'l',
        'o',
        'c',
        'i',
        't',
        'y',
        ':',
        ' ',
    ] + velocity
}

} // verus!
