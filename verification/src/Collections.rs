pub mod LightweightList;
