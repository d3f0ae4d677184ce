//! A desktop-info core library: a verified power-device monitor
//! (device discovery, snapshot reconciliation, icon resolution) together
//! with the pure display-unit and weather-code mappings the surrounding
//! application renders.

mod device;
mod icon;
mod units;
mod upower;
mod weather;

pub use device::Device;

pub use icon::fallback_icon;
pub use icon::is_bluez_path;
pub use icon::lemma_resolve_icon_nonempty;
pub use icon::needs_bluez_lookup;
pub use icon::resolve_icon;
pub use icon::spec_bluez_prefix;
pub use icon::spec_fallback_icon;
pub use icon::spec_is_bluez_path;
pub use icon::spec_nonempty_or_fallback;
pub use icon::spec_resolve_icon;
pub use icon::spec_wants_bluez_icon;

pub use units::Precipitation;
pub use units::Speed;
pub use units::Temperature;
pub use units::Units;

pub use upower::degraded_model;
pub use upower::lemma_degraded_registry_inert;
pub use upower::lemma_halted_registry_frozen;
pub use upower::lemma_init_flag_constant;
pub use upower::lemma_pass_yields_single_generation;
pub use upower::lemma_snapshot_length_counts_built;
pub use upower::run;
pub use upower::spec_built_count;
pub use upower::spec_collect;
pub use upower::spec_next_state;
pub use upower::spec_triggers_pass;
pub use upower::step;
pub use upower::step_pass;
pub use upower::step_stream_event;
pub use upower::EnumerationOutcome;
pub use upower::HotplugEvent;
pub use upower::LoopState;
pub use upower::ReconcileStep;
pub use upower::RegistryModel;
pub use upower::UPower;

pub use weather::CloudCover;
pub use weather::Intensity;
pub use weather::SimpleIntensity;
pub use weather::WeatherCode;
