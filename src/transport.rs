//! Play, pause, speed and scrub state of an animation, kept in step with the
//! animation players that are running.
//!
//! Times and speeds are host values (floating point); the controller only
//! stores, compares and forwards them. The host applies speed changes by
//! computing the new speed and calling `set_speed`.
use vstd::prelude::*;
use vstd::std_specs::cmp::PartialEqSpec;

verus! {

/// The transport's own state.
#[derive(Debug)]
pub struct TransportState<T> {
    /// Signed playback speed; a negative speed plays backwards.
    pub speed: T,
    pub paused: bool,
    /// The displayed playback time.
    pub scrub_time: T,
    /// The user set `scrub_time` by hand and the players have not seen it yet.
    pub scrub_dirty: bool,
}

/// What one animation player reports of itself this tick.
#[derive(Debug)]
pub struct PlayerStatus<T> {
    pub elapsed: T,
    pub speed: T,
    pub paused: bool,
}

/// What to write to one animation player this tick; `None` leaves the value
/// as it is.
#[derive(Debug)]
pub struct PlayerCommand<T> {
    pub seek_to: Option<T>,
    pub set_speed: Option<T>,
    pub set_paused: Option<bool>,
}

impl<T> TransportState<T> {
    /// The scrub time after reconciling with `players`: a pending scrub is
    /// kept to be pushed; otherwise the time follows the last player.
    pub open spec fn reconciled_scrub_time(self, players: Seq<PlayerStatus<T>>) -> T {
        if players.len() == 0 || self.scrub_dirty {
            self.scrub_time
        } else {
            players.last().elapsed
        }
    }

    /// `cmd` is what reconciliation writes to a player that reported `p`.
    pub open spec fn is_command_for(self, p: PlayerStatus<T>, cmd: PlayerCommand<T>) -> bool {
        &&& cmd.seek_to == if self.scrub_dirty {
            Some(self.scrub_time)
        } else {
            None
        }
        &&& cmd.set_paused == if p.paused == self.paused {
            None
        } else {
            Some(self.paused)
        }
        &&& cmd.set_speed.is_none() || cmd.set_speed == Some(self.speed)
    }
}

impl<T: Copy + PartialEq> TransportState<T> {
    /// A playing transport at `speed`, showing `scrub_time`.
    pub fn new(speed: T, scrub_time: T) -> (r: TransportState<T>)
        ensures
            r.speed == speed,
            !r.paused,
            r.scrub_time == scrub_time,
            !r.scrub_dirty,
    {
        TransportState { speed, paused: false, scrub_time, scrub_dirty: false }
    }

    /// Pauses a playing transport, or resumes a paused one.
    pub fn toggle_pause(&mut self)
        ensures
            final(self).paused == !old(self).paused,
            final(self).speed == old(self).speed,
            final(self).scrub_time == old(self).scrub_time,
            final(self).scrub_dirty == old(self).scrub_dirty,
    {
        self.paused = !self.paused;
    }

    /// Sets the playback speed; any value, negative ones included.
    pub fn set_speed(&mut self, speed: T)
        ensures
            final(self).speed == speed,
            final(self).paused == old(self).paused,
            final(self).scrub_time == old(self).scrub_time,
            final(self).scrub_dirty == old(self).scrub_dirty,
    {
        self.speed = speed;
    }

    /// Scrubs to `time`; the players are moved there at the next
    /// reconciliation.
    pub fn set_scrub_time(&mut self, time: T)
        ensures
            final(self).scrub_time == time,
            final(self).scrub_dirty,
            final(self).speed == old(self).speed,
            final(self).paused == old(self).paused,
    {
        self.scrub_time = time;
        self.scrub_dirty = true;
    }

    /// One reconciliation tick against every running player, in the order
    /// given. A pending scrub is pushed to all of them and then counts as
    /// seen; without one, the scrub time is pulled from the players. Speed
    /// and pause are written only to players whose own values differ. With
    /// no player nothing changes.
    pub fn reconcile(&mut self, players: &[PlayerStatus<T>]) -> (r: Vec<PlayerCommand<T>>)
        ensures
            r@.len() == players@.len(),
            forall|k: int| 0 <= k < players@.len() ==> old(self).is_command_for(
                #[trigger] players@[k],
                r@[k],
            ),
            T::obeys_eq_spec() ==> forall|k: int| 0 <= k < players@.len() ==> (
                #[trigger] r@[k]).set_speed.is_none() == old(self).speed.eq_spec(&players@[k].speed),
            final(self).scrub_time == old(self).reconciled_scrub_time(players@),
            final(self).scrub_dirty == (old(self).scrub_dirty && players@.len() == 0),
            final(self).speed == old(self).speed,
            final(self).paused == old(self).paused,
    {
        let n = players.len();
        let pushing = self.scrub_dirty;
        let mut commands: Vec<PlayerCommand<T>> = Vec::new();
        let mut i: usize = 0;
        while i < n
            invariant
                n == players@.len(),
                i <= n,
                pushing == old(self).scrub_dirty,
                commands@.len() == i,
                self.speed == old(self).speed,
                self.paused == old(self).paused,
                self.scrub_dirty == old(self).scrub_dirty,
                self.scrub_time == if i == 0 || pushing {
                    old(self).scrub_time
                } else {
                    players@[i - 1].elapsed
                },
                forall|k: int| 0 <= k < i ==> old(self).is_command_for(#[trigger] players@[k], commands@[k]),
                T::obeys_eq_spec() ==> forall|k: int| 0 <= k < i ==> (
                    #[trigger] commands@[k]).set_speed.is_none() == old(self).speed.eq_spec(
                    &players@[k].speed,
                ),
            decreases n - i,
        {
            let p = &players[i];
            let seek_to = if pushing {
                Some(self.scrub_time)
            } else {
                None
            };
            let set_speed = if self.speed == p.speed {
                None
            } else {
                Some(self.speed)
            };
            let set_paused = if self.paused == p.paused {
                None
            } else {
                Some(self.paused)
            };
            if !pushing {
                self.scrub_time = p.elapsed;
            }
            commands.push(PlayerCommand { seek_to, set_speed, set_paused });
            i = i + 1;
        }
        if n > 0 {
            self.scrub_dirty = false;
        }
        commands
    }
}

} // verus!
