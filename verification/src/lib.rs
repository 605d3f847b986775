//! Magnesium: the logic of a desktop client for the EFG school timetable,
//! covering the secret store entries it keeps, the week and day layout of the
//! timetable, the navigation rules of the calendar and the sign-in flow.

pub mod config;
pub mod models;
pub mod efg;
