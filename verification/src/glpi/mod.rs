pub mod glpi;
