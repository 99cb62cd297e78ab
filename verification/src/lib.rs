//! A desktop control daemon's verified core: the command wire codec, the
//! subsystem handlers' decisions, the transition-detecting watchers, the
//! notification texts and the persisted records, each pinned down by a
//! contract. The processes, sockets and external tools around them live
//! with the binary, outside this crate.

pub mod acpi;
pub mod args;
pub mod battery;
pub mod brightness;
pub mod error;
pub mod hypr;
pub mod json;
pub mod manager;
pub mod notifier;
pub mod notify;
pub mod plan;
pub mod stater;
pub mod system;
pub mod systemd;
pub mod text;
pub mod utils;
pub mod volume;
pub mod watcher;
pub mod wifi;
