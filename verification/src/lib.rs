//! The verified core of the capture harness and the live probe fleet.
pub mod text;
pub mod pixels;
pub mod registry;
pub mod live_shot;
pub mod knobs;
pub mod capture;
pub mod charcreate;
pub mod probe_clock;
pub mod auction;
pub mod auction_laws;
pub mod bank;
pub mod bank_laws;
pub mod chest;
pub mod binder;
pub mod clam;
pub mod bg_queue;
pub mod castcancel;
pub mod phase;
pub mod charter;
pub mod bg;
pub mod bg_run;
pub mod bg_laws;
pub mod scenario;
