//! Boot-time setup: segment and task-state layout, the dispatch table, and
//! the order in which boot brings them up.
pub mod boot;
pub mod gdt;
pub mod idt;
