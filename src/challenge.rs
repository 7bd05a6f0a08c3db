use vstd::prelude::*;
use crate::outcomes::ChallengeError;
use crate::clock::TimerConfig;
use crate::seats::{Seat, seat_index};

verus! {

/// What a creator asks for when opening a challenge.
#[derive(Debug, Clone)]
pub struct ChallengeConfig {
    pub max_points: i32,
    pub timer_config: Option<TimerConfig>,
    pub creator_seat: Option<Seat>,
    pub creator_name: Option<String>,
    pub expiry_secs: u64,
}

/// Points target of a challenge when the creator names none.
pub fn default_max_points() -> (r: i32)
    ensures
        r == 500,
{
    500
}

/// Lifetime of a challenge, in seconds, when the creator names none: one day.
pub fn default_expiry_secs() -> (r: u64)
    ensures
        r == 86400,
{
    86400
}

impl ChallengeConfig {
    /// A configuration with the default target and lifetime, no clock and no creator seat.
    pub fn with_defaults() -> (c: ChallengeConfig)
        ensures
            c.max_points == 500,
            c.expiry_secs == 86400,
            c.timer_config is None,
            c.creator_seat is None,
            c.creator_name is None,
    {
        ChallengeConfig {
            max_points: default_max_points(),
            timer_config: None,
            creator_seat: None,
            creator_name: None,
            expiry_secs: default_expiry_secs(),
        }
    }
}

/// Lifecycle of a challenge; identifiers are 128-bit values.
#[derive(Debug, Clone, Copy, PartialEq, Eq, Structural)]
pub enum ChallengeStatusKind {
    Open,
    Started { game_id: u128 },
    Cancelled,
    Expired,
}

/// The seat occupants and status of one challenge.
#[derive(Debug, Clone, Copy)]
pub struct ChallengeSeats {
    pub creator_id: Option<u128>,
    pub seats: [Option<u128>; 4],
    pub status: ChallengeStatusKind,
}

pub open spec fn all_filled(seats: Seq<Option<u128>>) -> bool {
    forall|i: int| 0 <= i < 4 ==> #[trigger] seats[i] is Some
}

impl ChallengeSeats {
    pub fn new(creator_id: Option<u128>, creator_seat: Option<Seat>) -> (c: ChallengeSeats)
        ensures
            c.status == ChallengeStatusKind::Open,
            c.creator_id == creator_id,
            forall|i: int| 0 <= i < 4 ==> #[trigger] c.seats@[i] == (match (creator_id, creator_seat) {
                (Some(p), Some(s)) => if seat_index(s) == i { Some(p) } else { None::<u128> },
                _ => None::<u128>,
            }),
    {
        let mut seats: [Option<u128>; 4] = [None, None, None, None];
        match (creator_id, creator_seat) {
            (Some(p), Some(s)) => {
                seats[s.to_index()] = Some(p);
            },
            _ => {},
        }
        ChallengeSeats { creator_id, seats, status: ChallengeStatusKind::Open }
    }

    pub fn seats_filled(&self) -> (n: usize)
        ensures
            n <= 4,
            n == 4 <==> all_filled(self.seats@),
    {
        let mut n: usize = 0;
        if self.seats[0].is_some() { n = n + 1; }
        if self.seats[1].is_some() { n = n + 1; }
        if self.seats[2].is_some() { n = n + 1; }
        if self.seats[3].is_some() { n = n + 1; }
        n
    }

    /// Seats `player` at `seat`. Fails with `NotOpen` unless the challenge is open, then with
    /// `SeatTaken` if the seat is occupied. On success returns whether all four seats are now filled.
    pub fn join(&mut self, seat: Seat, player: u128) -> (r: Result<bool, ChallengeError>)
        ensures
            old(self).status != ChallengeStatusKind::Open ==> (r matches Err(ChallengeError::NotOpen)
                && *final(self) == *old(self)),
            old(self).status == ChallengeStatusKind::Open && old(self).seats@[seat_index(seat)] is Some
                ==> (r matches Err(ChallengeError::SeatTaken) && *final(self) == *old(self)),
            old(self).status == ChallengeStatusKind::Open && old(self).seats@[seat_index(seat)] is None ==> {
                &&& final(self).seats@ == old(self).seats@.update(seat_index(seat), Some(player))
                &&& final(self).status == old(self).status
                &&& final(self).creator_id == old(self).creator_id
                &&& r matches Ok(full) && full == all_filled(final(self).seats@)
            },
    {
        if self.status != ChallengeStatusKind::Open {
            return Err(ChallengeError::NotOpen);
        }
        let i = seat.to_index();
        if self.seats[i].is_some() {
            return Err(ChallengeError::SeatTaken);
        }
        self.seats[i] = Some(player);
        let n = self.seats_filled();
        Ok(n == 4)
    }

    /// Frees `seat` if `player` holds it and the challenge is still open; otherwise nothing changes.
    pub fn vacate_seat(&mut self, seat: Seat, player: u128) -> (vacated: bool)
        ensures
            vacated == (old(self).status == ChallengeStatusKind::Open
                && old(self).seats@[seat_index(seat)] == Some(player)),
            vacated ==> final(self).seats@ == old(self).seats@.update(seat_index(seat), None)
                && final(self).status == old(self).status && final(self).creator_id == old(self).creator_id,
            !vacated ==> *final(self) == *old(self),
    {
        if self.status != ChallengeStatusKind::Open {
            return false;
        }
        let i = seat.to_index();
        match self.seats[i] {
            Some(p) => if p == player {
                self.seats[i] = None;
                true
            } else {
                false
            },
            None => false,
        }
    }

    /// Cancels the challenge on the creator's request while it is open.
    pub fn cancel(&mut self, requester: u128) -> (r: Result<(), ChallengeError>)
        ensures
            old(self).status != ChallengeStatusKind::Open ==> (r matches Err(ChallengeError::NotOpen)
                && *final(self) == *old(self)),
            old(self).status == ChallengeStatusKind::Open && old(self).creator_id != Some(requester)
                ==> (r matches Err(ChallengeError::NotCreator) && *final(self) == *old(self)),
            old(self).status == ChallengeStatusKind::Open && old(self).creator_id == Some(requester)
                ==> (r is Ok && final(self).status == ChallengeStatusKind::Cancelled
                    && final(self).seats == old(self).seats && final(self).creator_id == old(self).creator_id),
    {
        if self.status != ChallengeStatusKind::Open {
            return Err(ChallengeError::NotOpen);
        }
        match self.creator_id {
            Some(c) => if c != requester {
                return Err(ChallengeError::NotCreator);
            },
            None => {
                return Err(ChallengeError::NotCreator);
            },
        }
        self.status = ChallengeStatusKind::Cancelled;
        Ok(())
    }

    /// Marks an open challenge expired; any other status is kept.
    pub fn expire(&mut self)
        ensures
            old(self).status == ChallengeStatusKind::Open ==> final(self).status == ChallengeStatusKind::Expired,
            old(self).status != ChallengeStatusKind::Open ==> final(self).status == old(self).status,
            final(self).seats == old(self).seats,
            final(self).creator_id == old(self).creator_id,
    {
        if self.status == ChallengeStatusKind::Open {
            self.status = ChallengeStatusKind::Expired;
        }
    }

    /// Records that the table `game_id` was created and started for a full, open challenge.
    pub fn start(&mut self, game_id: u128)
        requires
            old(self).status == ChallengeStatusKind::Open,
            all_filled(old(self).seats@),
        ensures
            final(self).status == (ChallengeStatusKind::Started { game_id }),
            final(self).seats == old(self).seats,
            final(self).creator_id == old(self).creator_id,
    {
        self.status = ChallengeStatusKind::Started { game_id };
    }
}

} // verus!
