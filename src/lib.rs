//! Codec for the firmware power-management settings of a Lenovo laptop,
//! exchanged as ACPI method calls through the kernel's `acpi_call` file.
//!
//! Each transaction is one command written to the control file and, for a
//! query, one answer read back. This crate builds the commands and decodes
//! the answers; opening, writing and reading the file is left to the caller.

pub mod response;
pub mod settings;

pub use response::{parse_response, AcpiError};
pub use settings::{
    get_conservation, get_performance, get_rapid, query_command, set_conservation,
    set_performance, set_rapid, PerformanceMode, Setting, SettingKind,
};
