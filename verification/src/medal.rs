//! The medal that a score earns.

use vstd::prelude::*;

verus! {

/// A medal shown on the score board.
#[derive(Clone, Copy, Debug, PartialEq, Eq, Structural)]
pub enum Medal {
    Bronze,
    Silver,
    Gold,
    Platinum,
}

/// The medal for a score: none below 10, bronze from 10, silver from 20,
/// gold from 30 and platinum from 40. A score below zero, which no game
/// reaches, falls with those from 40.
pub open spec fn medal_of(score: int) -> Option<Medal> {
    if 0 <= score <= 9 {
        None
    } else if 10 <= score <= 19 {
        Some(Medal::Bronze)
    } else if 20 <= score <= 29 {
        Some(Medal::Silver)
    } else if 30 <= score <= 39 {
        Some(Medal::Gold)
    } else {
        Some(Medal::Platinum)
    }
}

impl Medal {
    /// The name of the medal, as it stands in the names of the pictures.
    pub fn name(&self) -> (r: &'static str)
        ensures
            r@ == match *self {
                Medal::Bronze => "bronze"@,
                Medal::Silver => "silver"@,
                Medal::Gold => "gold"@,
                Medal::Platinum => "platinum"@,
            },
    {
        match self {
            Medal::Bronze => "bronze",
            Medal::Silver => "silver",
            Medal::Gold => "gold",
            Medal::Platinum => "platinum",
        }
    }
}

/// The medal that a score earns, if it earns one.
pub fn get_medal(score: i32) -> (r: Option<Medal>)
    ensures
        r == medal_of(score as int),
{
    match score {
        0..=9 => None,
        10..=19 => Some(Medal::Bronze),
        20..=29 => Some(Medal::Silver),
        30..=39 => Some(Medal::Gold),
        _ => Some(Medal::Platinum),
    }
}

} // verus!
