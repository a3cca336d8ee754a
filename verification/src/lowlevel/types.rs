//! The settings that register fields encode.

pub mod address_check;
pub mod auto_calibration;
pub mod cca_mode;
pub mod fifo_threshold;
pub mod filter_length;
pub mod gdo_cfg;
pub mod length_config;
pub mod machine_state;
pub mod mod_format;
pub mod num_preamble;
pub mod packet_status;
pub mod po_timeout;
pub mod sync_check;
pub mod target_amplitude;

pub use self::address_check::AddressCheck;
pub use self::auto_calibration::AutoCalibration;
pub use self::cca_mode::CcaMode;
pub use self::fifo_threshold::FifoThreshold;
pub use self::filter_length::{ChannelFilterSamples, DecisionBoundary, FilterLength};
pub use self::gdo_cfg::GdoCfg;
pub use self::length_config::LengthConfig;
pub use self::machine_state::{MachineState, MachineStateError};
pub use self::mod_format::ModulationFormat;
pub use self::num_preamble::NumPreamble;
pub use self::packet_status::{BoolU8, PacketStatus};
pub use self::po_timeout::PoTimeout;
pub use self::sync_check::SyncCheck;
pub use self::target_amplitude::TargetAmplitude;
