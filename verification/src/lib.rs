#![allow(non_snake_case)]
#![allow(non_camel_case_types)]

pub mod Collections;
pub mod Data;
pub mod Engines;
pub mod Errors;
pub mod Events;
pub mod Random;
pub mod Stations;
