//! Drivers for network cards.
pub mod rtl8139;
