pub mod logger; pub mod symbol;
