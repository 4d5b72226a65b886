//! The register map: one type per register, one enum per enumerated field.

pub mod bits;
pub mod command;
pub mod config;
pub mod fields;
pub mod status;

pub use crate::peripheral::Register;
pub use command::{Cmd, CmdField};
pub use config::{
    AccConf, AccRange, GyrConf, GyrRange, InitAddr0, InitAddr1, InitCtrl, InitData, PwrConf,
    PwrCtrl,
};
pub use fields::{
    AccBwp, AccRangeMode, ErrorCode, GyrBwp, GyrRangeMode, InternalStatusMessage, OisRange,
    OutputDataRate,
};
pub use status::{
    ChipId, ErrReg, Event, IntStatus0, IntStatus1, InternalError, InternalStatus, SensorTime0,
    SensorTime1, SensorTime2, Status,
};
