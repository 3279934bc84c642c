pub mod ac_charger_state;
pub mod alarm_reason;
pub mod battery_monitor_state;
pub mod device_state;
pub mod error_state;
pub mod inverter_state;
pub mod mode;
pub mod solar_charger_state;
pub mod test_record_state;
pub mod ve_bus_state;

pub use self::ac_charger_state::AcChargerState;
pub use self::alarm_reason::{AlarmFlag, AlarmReason};
pub use self::battery_monitor_state::{AuxInput, BatteryMonitorState};
pub use self::device_state::DeviceState;
pub use self::error_state::ErrorState;
pub use self::inverter_state::InverterState;
pub use self::mode::Mode;
pub use self::solar_charger_state::SolarChargerState;
pub use self::test_record_state::TestRecordState;
pub use self::ve_bus_state::{AcInState, AlarmNotification, VeBusState};
