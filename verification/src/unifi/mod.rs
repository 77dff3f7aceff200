pub mod unifi;
