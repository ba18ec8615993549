pub mod db;
pub mod dbf;
pub mod errors;
pub mod interoper;
pub mod market;
pub mod pubsub;
pub mod storage;
pub mod t2sdk;
pub mod table;
pub mod utils;
pub mod wire;
pub mod xmlhelper;
