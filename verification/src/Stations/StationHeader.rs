use vstd::prelude::*;
use crate::Stations::StationData::StationData;

verus! {

/// A station's statistics together with the station's name.
#[derive(Debug)]
pub struct StationHeader {
    pub name: String,
    pub arrivals: i32,
    pub completions: i32,
    pub sysClients: i32,
    pub maxClients: i32,
    pub busyTime: u64,
    pub observationPeriod: u64,
    pub lastArrival: u64,
    pub areaN: u64,
    pub areaS: u64,
    pub oldclock: u64,
    pub clock: u64,
}

impl StationHeader {
    /// The statistics that the header holds, without the name.
    pub open spec fn data(&self) -> StationData {
        StationData {
            arrivals: self.arrivals,
            completions: self.completions,
            sysClients: self.sysClients,
            maxClients: self.maxClients,
            busyTime: self.busyTime,
            observationPeriod: self.observationPeriod,
            lastArrival: self.lastArrival,
            areaN: self.areaN,
            areaS: self.areaS,
            oldclock: self.oldclock,
            clock: self.clock,
        }
    }

    /// The header of a station called `name` that has seen nothing yet.
    pub fn new(name: String) -> (header: Self)
        ensures
            header.name == name,
            header.data() == StationData::fresh(),
    {
        Self {
            name: name,
            arrivals: 0,
            completions: 0,
            sysClients: 0,
            maxClients: 0,
            busyTime: 0,
            observationPeriod: 0,
            lastArrival: 0,
            areaN: 0,
            areaS: 0,
            oldclock: 0,
            clock: 0,
        }
    }
}

} // verus!
