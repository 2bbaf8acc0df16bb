//! Protocol engine for the UBX binary protocol of u-blox GNSS receivers:
//! checksum, frame codec, streaming frame parser and the request/response
//! transport rules, together with the catalogue of messages that the
//! receiver manager exchanges with the modem.

pub mod checksum;
pub mod cid;
pub mod decoder;
pub mod error;
pub mod frame;
pub mod gnss_mgr;
pub mod parser;
pub mod parser_nmea;
pub mod parser_ubx;
pub mod server_tty;
pub mod ubx_ack;
pub mod ubx_cfg_cfg;
pub mod ubx_cfg_esfalg;
pub mod ubx_cfg_nav5;
pub mod ubx_cfg_nmea;
pub mod ubx_cfg_prt;
pub mod ubx_cfg_rate;
pub mod wire;
pub mod ubx_cfg_rst;
pub mod ubx_cfg_esfla;
pub mod ubx_upd_sos;
pub mod ubx_cfg_gnss;
pub mod ubx_mon_ver;
pub mod ubx_mga_init_time_utc;
pub mod config_file;
pub mod neo_m8;
