pub mod config;
pub mod decimal;
pub mod deny_list_v2;
pub mod eth_address;
pub mod eth_event;
pub mod eth_stream;
pub mod eth_worker;
pub mod move_types;
pub mod object_store;
pub mod signing;
pub mod startup;
pub mod transfer;
pub mod u256;
