pub mod ldap;
