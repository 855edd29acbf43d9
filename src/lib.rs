//! A write-back cache in front of one contract storage slot.
//!
//! `cache` tracks whether the slot was loaded and whether the cached value
//! must be written back. `sync_cell` builds the cell on top of it: the cell
//! says when a load and when a write to the slot is owed, so that a slot is
//! read at most once until the cell is rebuilt and written at most once per
//! flush. `traffic` counts the reads and writes that a run of operations
//! causes and proves those bounds. `key` holds the slot's address and its
//! encoding.
pub mod cache;
pub mod key;
pub mod sync_cell;
pub mod traffic;
