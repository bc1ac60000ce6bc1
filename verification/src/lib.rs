//! Settings logic for the `ideapad_acpi` sysfs tunables of Lenovo laptops:
//! battery conservation mode (a boolean) and the fan operating mode (an
//! enumeration). The driver exposes each as a small ASCII integer in a
//! root-owned file; this crate decodes the raw file contents into semantic
//! state, encodes requested settings into the codes the driver expects on a
//! write, and tracks the in-memory mirror of the on-disk state through the
//! write cycle, so that the mirror never claims success after a failed write.

pub mod about;
pub mod fan;
pub mod parse;
pub mod state;
