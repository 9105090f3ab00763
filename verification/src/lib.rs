//! Verified core of the Automata Nexus building-automation controller:
//! alarm monitoring, board command planning, serial-number allocation,
//! e-mail templating, authentication decisions and protocol helpers.

pub mod protocols;
pub mod text;
pub mod entries;
pub mod alarms;
pub mod outside;
pub mod serial;
pub mod email;
pub mod boards;
pub mod hardware;
pub mod config;
pub mod database;
pub mod auth;
pub mod web;
pub mod io_control;
pub mod bms;
pub mod firmware;
pub mod metrics;
pub mod refrigerant;
pub mod api;
pub mod logic_engine;
pub mod db_viewer;
pub mod board_config;
pub mod weather;
pub mod audit;
pub mod circuits;
pub mod admin_access;
