use vstd::prelude::*;
use crate::Errors::SimError;

verus! {

/// The running statistics of one station: counters of customers, and integrals
/// of the occupancy over simulated time.
#[derive(Clone, Copy, Debug)]
pub struct StationData {
    pub arrivals: i32,
    pub completions: i32,
    pub sysClients: i32,
    pub maxClients: i32,
    pub busyTime: u64,
    pub observationPeriod: u64,
    pub lastArrival: u64,
    pub areaN: u64,
    pub areaS: u64,
    pub oldclock: u64,
    pub clock: u64,
}

impl StationData {
    /// The counters agree with one another: nobody has left who did not come,
    /// those inside are those who came and have not left, and the highest
    /// occupancy seen is no lower than the present one. Both clocks stand at
    /// the time of the last event seen.
    pub open spec fn wf(&self) -> bool {
        &&& 0 <= self.completions <= self.arrivals
        &&& self.sysClients == self.arrivals - self.completions
        &&& self.sysClients <= self.maxClients
        &&& self.oldclock == self.clock
    }

    /// The time that passes from the last event seen to an event at `occurTime`.
    pub open spec fn interval_to(&self, occurTime: u64) -> int {
        occurTime - self.oldclock
    }

    /// The three integrals as they stand once the clock has moved to `occurTime`:
    /// busy time, area under the number in the station, area under the number waiting.
    pub open spec fn integrals_at(&self, occurTime: u64) -> (int, int, int) {
        let dt = self.interval_to(occurTime);
        if self.sysClients > 0 {
            (
                self.busyTime + dt,
                self.areaN + self.sysClients * dt,
                self.areaS + (self.sysClients - 1) * dt,
            )
        } else {
            (self.busyTime as int, self.areaN as int, self.areaS as int)
        }
    }

    /// The outcome that `update` owes for each state and time.
    pub open spec fn update_verdict(&self, occurTime: u64) -> Result<(), SimError> {
        let (busy, area_n, area_s) = self.integrals_at(occurTime);
        if occurTime < self.oldclock {
            Err(SimError::ClockRegression)
        } else if busy > u64::MAX || area_n > u64::MAX || area_s > u64::MAX {
            Err(SimError::Overflow)
        } else {
            Ok(())
        }
    }

    /// The statistics after the clock has moved to `occurTime`.
    pub open spec fn updated(&self, occurTime: u64) -> StationData {
        let (busy, area_n, area_s) = self.integrals_at(occurTime);
        StationData {
            busyTime: busy as u64,
            areaN: area_n as u64,
            areaS: area_s as u64,
            oldclock: occurTime,
            clock: occurTime,
            ..*self
        }
    }

    /// The outcome that `client_arrived` owes: a customer is counted unless
    /// the count of those inside or of those who came stands at its limit.
    pub open spec fn arrival_verdict(&self) -> Result<(), SimError> {
        if self.sysClients == i32::MAX || self.arrivals == i32::MAX {
            Err(SimError::Overflow)
        } else {
            Ok(())
        }
    }

    /// The statistics after one more customer has come in at `arrivalTime`:
    /// one more inside, one more who came, and the highest occupancy raised
    /// where the new occupancy is above it.
    pub open spec fn with_arrival(&self, arrivalTime: u64) -> StationData {
        StationData {
            sysClients: (self.sysClients + 1) as i32,
            maxClients: if self.sysClients + 1 > self.maxClients {
                (self.maxClients + 1) as i32
            } else {
                self.maxClients
            },
            arrivals: (self.arrivals + 1) as i32,
            lastArrival: arrivalTime,
            ..*self
        }
    }

    /// The outcome that `client_departure` owes.
    pub open spec fn departure_verdict(&self) -> Result<(), SimError> {
        if self.sysClients <= 0 {
            Err(SimError::NegativeClients)
        } else if self.completions == i32::MAX {
            Err(SimError::Overflow)
        } else {
            Ok(())
        }
    }

    /// The statistics after one customer has left.
    pub open spec fn with_departure(&self) -> StationData {
        StationData {
            sysClients: (self.sysClients - 1) as i32,
            completions: (self.completions + 1) as i32,
            ..*self
        }
    }

    /// The statistics of a station that has seen nothing yet.
    pub open spec fn fresh() -> StationData {
        StationData {
            arrivals: 0,
            completions: 0,
            sysClients: 0,
            maxClients: 0,
            busyTime: 0,
            observationPeriod: 0,
            lastArrival: 0,
            areaN: 0,
            areaS: 0,
            oldclock: 0,
            clock: 0,
        }
    }

    pub fn new() -> (data: Self)
        ensures
            data == StationData::fresh(),
            data.wf(),
    {
        StationData {
            arrivals: 0,
            completions: 0,
            sysClients: 0,
            maxClients: 0,
            busyTime: 0,
            observationPeriod: 0,
            lastArrival: 0,
            areaN: 0,
            areaS: 0,
            oldclock: 0,
            clock: 0,
        }
    }

    /// Moves the station's clock to `occurTime` and adds the elapsed interval,
    /// weighted by the occupancy that held during it, to the integrals. An
    /// earlier time, or an integral that no longer fits, is refused and leaves
    /// the statistics as they were.
    pub fn update(&mut self, occurTime: u64) -> (r: Result<(), SimError>)
        ensures
            r == old(self).update_verdict(occurTime),
            r is Ok ==> *final(self) == old(self).updated(occurTime),
            r is Err ==> *final(self) == *old(self),
            old(self).wf() ==> final(self).wf(),
            old(self).wf() && r is Ok ==> old(self).clock <= final(self).clock,
    {
        if occurTime < self.oldclock {
            return Err(SimError::ClockRegression);
        }
        let interval: u64 = occurTime - self.oldclock;
        if self.sysClients > 0 {
            let clients: u128 = self.sysClients as u128;
            let dt: u128 = interval as u128;
            assert(clients * dt <= 0x8000_0000 * 0x1_0000_0000_0000_0000) by (nonlinear_arith)
                requires
                    0 <= clients < 0x8000_0000,
                    0 <= dt < 0x1_0000_0000_0000_0000,
            ;
            assert((clients - 1) * dt <= clients * dt) by (nonlinear_arith)
                requires
                    0 < clients,
                    0 <= dt,
            ;
            let busy: u128 = self.busyTime as u128 + dt;
            let area_n: u128 = self.areaN as u128 + clients * dt;
            let area_s: u128 = self.areaS as u128 + (clients - 1) * dt;
            if busy > u64::MAX as u128 || area_n > u64::MAX as u128 || area_s > u64::MAX as u128 {
                return Err(SimError::Overflow);
            }
            self.busyTime = busy as u64;
            self.areaN = area_n as u64;
            self.areaS = area_s as u64;
        }
        self.oldclock = occurTime;
        self.clock = occurTime;
        Ok(())
    }

    /// Counts one more customer in the station, arrived at `arrivalTime`. In
    /// consistent statistics the highest occupancy is then the larger of what
    /// it was and the new occupancy.
    pub fn client_arrived(&mut self, arrivalTime: u64) -> (r: Result<(), SimError>)
        ensures
            r == old(self).arrival_verdict(),
            r is Ok ==> *final(self) == old(self).with_arrival(arrivalTime),
            r is Err ==> *final(self) == *old(self),
            old(self).wf() ==> final(self).wf(),
            r is Ok && old(self).sysClients <= old(self).maxClients ==> final(self).maxClients
                == if old(self).maxClients > final(self).sysClients {
                old(self).maxClients
            } else {
                final(self).sysClients
            },
    {
        if self.sysClients == i32::MAX || self.arrivals == i32::MAX {
            return Err(SimError::Overflow);
        }
        self.sysClients = self.sysClients + 1;
        if self.sysClients > self.maxClients {
            self.maxClients = self.maxClients + 1;
        }
        self.arrivals = self.arrivals + 1;
        self.lastArrival = arrivalTime;
        Ok(())
    }

    /// Counts one customer out of the station. A station that holds nobody
    /// refuses, and its count never turns negative.
    pub fn client_departure(&mut self) -> (r: Result<(), SimError>)
        ensures
            r == old(self).departure_verdict(),
            r is Ok ==> *final(self) == old(self).with_departure(),
            r is Err ==> *final(self) == *old(self),
            old(self).wf() ==> final(self).wf(),
    {
        if self.sysClients <= 0 {
            return Err(SimError::NegativeClients);
        }
        if self.completions == i32::MAX {
            return Err(SimError::Overflow);
        }
        self.sysClients = self.sysClients - 1;
        self.completions = self.completions + 1;
        Ok(())
    }
}

} // verus!
