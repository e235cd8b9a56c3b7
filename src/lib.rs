//! Verified core of a sensor node: countdown alarms, a bounded log staging
//! buffer with its drain step, a heartbeat indicator and the protocol state
//! machine of a particulate-matter sensor.

pub mod alarm;
pub mod level;
pub mod log_buffer;
pub mod record;
pub mod sensor;
pub mod status;

pub use alarm::{Alarm, AlarmError};
pub use level::{Level, LevelFilter};
pub use log_buffer::{flush_logs, init_logger, SerialLogger, LOG_BUFFER_CAPACITY};
pub use record::{
    format_line, make_record, push_decimal, truncate_message, truncate_tag, LogRecord,
    MESSAGE_CAP, TAG_CAP, TICKS_PER_MS,
};
pub use sensor::{
    command_frame, decode_frame, finish_read, ParticulateMatterSensor, Reading, SensorError,
    SensorState, TransportFault, CMD_MODE, CMD_READ, CMD_SLEEP, RESPONSE_LEN, WARM_UP_TICKS,
};
pub use status::{StatusPin, STATUS_PERIOD};
