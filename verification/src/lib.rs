//! A status line for bar-style renderers: samples of a fixed set of system
//! metrics are parsed, classified into colour tiers and assembled into one
//! record of nine segments per tick.
//!
//! Reading the sources and writing the records is left to the caller: every
//! function here takes what a source held as plain text, `None` standing for
//! a source that could not be read, and hands back segments or their wire
//! form. The one thing read here is the local wall clock.

pub mod battery;
pub mod clock;
pub mod color;
pub mod cpu;
pub mod decimal;
pub mod layout;
pub mod memory;
pub mod power;
pub mod record;
pub mod scan;
pub mod segment;
pub mod text;
pub mod thermal;
pub mod tick;

pub use battery::{p_bat, BatteryFlow};
pub use clock::{p_date, p_date_at, p_time, p_time_at, WallClock};
pub use color::PrintColor;
pub use cpu::{p_cpu_usage, CpuCounters};
pub use layout::p_lang;
pub use memory::{p_mem_usage, MemInfo};
pub use power::p_ac_online;
pub use record::{protocol_header, render_record};
pub use segment::{p_full, Segment};
pub use text::first_line;
pub use thermal::p_cpu_temp;
pub use tick::{tick, tick_at, Sources};
