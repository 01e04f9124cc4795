//! Shapes of a flight simulator: models that come as a stream of tagged
//! records in the code section of an executable image, with fragments of
//! x86 machine code among the records.
//!
//! - [`sh`] decodes the records, and shows the code in hexadecimal.
//! - [`i386`] disassembles the fragments and runs them on a small machine
//!   that hands control back whenever the code calls an outside function.
//! - [`image`] holds what is known of the image around the code.
//! - [`dlg`] and [`dlg_view`] read dialogs, which come in the same kind of
//!   image.
//! - [`draw_mode`], [`shape`], [`shape_instance`] and [`terrain_geo`] hold
//!   what the drawing of shapes and of the terrain is told.

pub mod bytes;
pub mod dlg;
pub mod dlg_view;
pub mod draw_mode;
pub mod i386;
pub mod image;
pub mod sh;
pub mod shape;
pub mod shape_instance;
pub mod terrain_geo;
pub mod text;
