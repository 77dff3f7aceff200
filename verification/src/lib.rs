//! Access control for a captive portal: the lifecycle of access records,
//! approval codes, the session held with the wireless controller, and the two
//! reconciliation passes that keep local records in step with the controller
//! and with the directory.

pub mod configurations;
pub mod controllers;
pub mod glpi;
pub mod ldap;
pub mod model;
pub mod security;
pub mod unifi;
pub mod utils;
