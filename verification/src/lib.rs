//! Rock, paper, scissors against an opponent that adapts to the player.
//!
//! The crate holds the rules of a round ([`game`]), the bookkeeping over the
//! rounds played so far ([`history`]), the opponent's way of choosing its next
//! move ([`strategy`]) and the handling of the words a player types
//! ([`text`]). Every function carries a contract that Verus proves; the few
//! calls into `rand` and into parts of `std` that have no specification are
//! kept apart in [`random`] and at the top of [`text`].

pub mod game;
pub mod history;
pub mod random;
pub mod strategy;
pub mod text;
