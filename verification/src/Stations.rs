pub mod FCFSRuler;
pub mod FCFSStation;
pub mod Processor;
pub mod Station;
pub mod StationData;
pub mod StationHeader;
