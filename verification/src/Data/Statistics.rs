use vstd::prelude::*;
use crate::Stations::StationData::StationData;

verus! {

/// A quotient of two measured quantities, kept exact: `num` over `den`.
/// A quotient whose `den` is zero has no value.
#[derive(Clone, Copy, Debug, PartialEq, Eq, Structural)]
pub struct Ratio {
    pub num: u64,
    pub den: u64,
}

/// The figures derived from a station's running statistics at one moment.
#[derive(Debug)]
pub struct StationStatistic {
    pub name: String,
    pub actualClock: u64,
    pub avgInterArrival: Ratio,
    pub avgServiceTime: Ratio,
    pub avgDelay: Ratio,
    pub avgWaiting: Ratio,
    pub utilization: Ratio,
    pub throughput: Ratio,
    pub inputRate: Ratio,
    pub arrivalRate: Ratio,
    pub serviceRate: Ratio,
    pub traffic: Ratio,
    pub meanCustomInQueue: Ratio,
    pub meanCustomerInService: Ratio,
    pub meanCustomerInSystem: Ratio,
}

impl StationStatistic {
    /// Every figure of the snapshot is the one that `data` gives: times and
    /// integrals over the number of customers or over the observation period.
    pub open spec fn describes(&self, data: StationData) -> bool {
        &&& self.actualClock == data.clock
        &&& self.avgInterArrival == (Ratio { num: data.oldclock, den: data.arrivals as u64 })
        &&& self.avgServiceTime == (Ratio { num: data.busyTime, den: data.completions as u64 })
        &&& self.avgDelay == (Ratio { num: data.areaS, den: data.completions as u64 })
        &&& self.avgWaiting == (Ratio { num: data.areaN, den: data.completions as u64 })
        &&& self.utilization == (Ratio { num: data.busyTime, den: data.observationPeriod })
        &&& self.throughput == (Ratio {
            num: data.completions as u64,
            den: data.observationPeriod,
        })
        &&& self.inputRate == (Ratio { num: data.arrivals as u64, den: data.oldclock })
        &&& self.arrivalRate == (Ratio { num: data.arrivals as u64, den: data.observationPeriod })
        &&& self.serviceRate == (Ratio { num: data.completions as u64, den: data.busyTime })
        &&& self.traffic == (Ratio { num: data.busyTime, den: data.lastArrival })
        &&& self.meanCustomInQueue == (Ratio { num: data.areaS, den: data.observationPeriod })
        &&& self.meanCustomerInService == (Ratio {
            num: data.busyTime,
            den: data.observationPeriod,
        })
        &&& self.meanCustomerInSystem == (Ratio { num: data.areaN, den: data.observationPeriod })
    }

    /// The snapshot of the station called `name` whose statistics are `data`.
    pub fn from_data(name: &String, data: &StationData) -> (snapshot: Self)
        requires
            data.wf(),
        ensures
            snapshot.name@ == name@,
            snapshot.describes(*data),
    {
        let arrivals: u64 = data.arrivals as u64;
        let completions: u64 = data.completions as u64;
        StationStatistic {
            name: name.clone(),
            actualClock: data.clock,
            avgInterArrival: Ratio { num: data.oldclock, den: arrivals },
            avgServiceTime: Ratio { num: data.busyTime, den: completions },
            avgDelay: Ratio { num: data.areaS, den: completions },
            avgWaiting: Ratio { num: data.areaN, den: completions },
            utilization: Ratio { num: data.busyTime, den: data.observationPeriod },
            throughput: Ratio { num: completions, den: data.observationPeriod },
            inputRate: Ratio { num: arrivals, den: data.oldclock },
            arrivalRate: Ratio { num: arrivals, den: data.observationPeriod },
            serviceRate: Ratio { num: completions, den: data.busyTime },
            traffic: Ratio { num: data.busyTime, den: data.lastArrival },
            meanCustomInQueue: Ratio { num: data.areaS, den: data.observationPeriod },
            meanCustomerInService: Ratio { num: data.busyTime, den: data.observationPeriod },
            meanCustomerInSystem: Ratio { num: data.areaN, den: data.observationPeriod },
        }
    }
}

impl Clone for StationStatistic {
    fn clone(&self) -> (copy: Self)
        ensures
            copy == *self,
    {
        StationStatistic {
            name: self.name.clone(),
            actualClock: self.actualClock,
            avgInterArrival: self.avgInterArrival,
            avgServiceTime: self.avgServiceTime,
            avgDelay: self.avgDelay,
            avgWaiting: self.avgWaiting,
            utilization: self.utilization,
            throughput: self.throughput,
            inputRate: self.inputRate,
            arrivalRate: self.arrivalRate,
            serviceRate: self.serviceRate,
            traffic: self.traffic,
            meanCustomInQueue: self.meanCustomInQueue,
            meanCustomerInService: self.meanCustomerInService,
            meanCustomerInSystem: self.meanCustomerInSystem,
        }
    }
}

} // verus!
