pub mod DataStore;
pub mod Statistics;
