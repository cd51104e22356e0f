//! Four small kernel-style modules, modelled over plain values: a greeter, a
//! coding-style exercise, a USB interface-driver stub and a miscellaneous
//! character device that exposes a fixed identifier.
//!
//! The kernel services they use (the log, a microsecond delay, the caller's
//! buffers) are modelled by [`Host`], [`UserWriter`] and [`UserReader`].

mod coding_style;
mod error;
mod fmt;
mod greeter;
mod host;
mod misc_device;
mod usb_driver;

pub use coding_style::{do_work, lemma_coding_style_cycle, slept_long_line, work_sleep, CodingStyle};
pub use error::Error;
pub use fmt::{decimal, digit_char, format_int, int_text};
pub use greeter::{bye_line, hello_line, lemma_greeter_cycle, Task01};
pub use host::{Host, Level, LogLine};
pub use misc_device::{
    assigned_id, lemma_read_is_suffix, lemma_repeated_reads_agree,
    lemma_write_accepts_only_identifier, read_post, read_window, write_outcome, Task06, UserReader,
    UserWriter, ID_LEN,
};
pub use usb_driver::{
    disconnect_line, first_match, lemma_usb_cycle, match_id, probe_line, DeviceId, IdEntry,
    IfClass, IfProto, IfSubClass, Interface, Task05,
};
