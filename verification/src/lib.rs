//! Driver core for a GNSS receiver speaking a binary framing protocol over a
//! serial link.
//!
//! The crate holds the protocol engine: frame synchronization, header
//! parsing, CRC validation, message-type demultiplexing, and
//! request/response correlation through two bounded delivery queues. The
//! byte-stream transport itself (a serial port) lives outside this crate;
//! callers read and write raw bytes and hand them to the engine.

pub mod crc;
pub mod commands;
pub mod header;
pub mod logs;
pub mod oem6;
pub mod response;
pub mod text;

pub use crc::compute_crc;
pub use crc::verify;
pub use commands::LogCmd;
pub use commands::LogTrigger;
pub use commands::Message;
pub use commands::MessageID;
pub use commands::UnlogAllCmd;
pub use commands::UnlogCmd;
pub use commands::frame_message;
pub use commands::PORT_COM1;
pub use header::Header;
pub use header::HDR_LEN;
pub use logs::BestXYZLog;
pub use logs::Log;
pub use logs::LogView;
pub use logs::RxStatusEventLog;
pub use logs::VersionLog;
pub use oem6::DeliveryQueue;
pub use oem6::FrameOutcome;
pub use oem6::OEM6;
pub use oem6::OEMError;
pub use oem6::OEMResult;
pub use oem6::QUEUE_CAPACITY;
pub use response::Response;
pub use response::ResponseID;
