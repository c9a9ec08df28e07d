//! State and decisions of a small desktop event table: the table's rows and
//! layout values, the reading of cursor data out of window event text, the
//! tray menu registry and the application shell's exit flow.

pub mod scan;
pub mod decimal;
pub mod event;
pub mod table;
pub mod tray;
pub mod shell;
