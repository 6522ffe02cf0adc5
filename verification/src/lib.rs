//! Serial device sessions and the supervision of one companion process for a
//! desktop application.
//!
//! Two independent managers make up the crate. The [`serial`] module works on
//! the [`registry`] of open serial ports and decides what is done to each
//! device; the [`server`] module keeps the single slot of the supervised
//! process and decides when it is launched and how it is terminated. Neither
//! performs device or process I/O itself. An operation that needs the system
//! is a step function: it names the next action for the caller to perform,
//! and takes the action's outcome as its next event.

pub mod config;
pub mod error;
pub mod ports;
pub mod registry;
pub mod serial;
pub mod server;
pub mod text;

pub use config::{
    get_available_baud_rates, DataBits, Parity, PortSettings, SerialConfig, StopBits,
    READ_TIMEOUT_MS,
};
pub use error::{SerialError, SerialErrorView, ServerError, ServerErrorView, WriteStage};
pub use ports::{
    list_serial_ports, port_info, usb_description, DetectedPort, PortInfo, PortInfoView, PortKind,
};
pub use registry::{PortSession, SerialManager};
pub use serial::{
    close_serial_port, open_serial_port, read_serial_data, write_serial_data, OpenAction,
    OpenActionView, OpenEvent, ReadAction, ReadActionView, ReadEvent, WriteAction, WriteActionView,
    WriteEvent,
};
pub use server::{
    get_server_status, kill_method, launch_command, start_backend_server,
    start_backend_server_internal, stop_backend_server, tree_kill_command, KillMethod,
    KillMethodView, LaunchCommand, LaunchCommandView, Platform, ProcessRecord, Profile, ServerState,
    StartAction, StartActionView, StartEvent, StopAction, StopActionView, StopEvent, Termination,
    AUTO_START_DELAY_MS,
};
pub use text::decimal_string;
