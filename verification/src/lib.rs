//! Decision logic of a multi-agent simulation of a mobile population that
//! makes calls through cell towers: pheeple commuting between home and work,
//! the day/night cycle, the call log written as CSV, the basemap loading
//! rules, command-line and camera decisions.

pub mod ids;
pub mod chance;
pub mod pheeple;
pub mod day_night;
pub mod call_log;
pub mod tower;
pub mod gis;
pub mod settings;
pub mod camera;
