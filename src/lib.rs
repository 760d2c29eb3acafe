//! Layout of a one-page invoice: the data an invoice is made from, the
//! fixed-point money arithmetic and text it shows, and the position of every
//! mark on the page.

pub mod money;
pub mod invoice;
pub mod layout;
pub mod laws;
