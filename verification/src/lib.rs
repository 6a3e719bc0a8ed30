//! Button-navigated screen flows for a tiny, heapless display.
//!
//! The crate models the presentation core of a small button-driven device:
//! a `Page` splits a bounded sequence of layout operations into display-sized
//! sub-pages without caching break points, `FlowPages` produces pages lazily
//! from a factory, and `Flow` turns button positions into navigation steps or
//! terminal messages while keeping a scrollbar in sync.

pub mod buttons;
pub mod choice;
pub mod choice_item;
pub mod component;
pub mod digits;
pub mod flow;
pub mod flow_pages;
pub mod frame;
pub mod geometry;
pub mod layout;
pub mod number_input;
pub mod ops;
pub mod passphrase;
pub mod pin;
pub mod scrollbar;
pub mod show_more;
pub mod simple_choice;
pub mod textbox;
pub mod title;
pub mod trace;
pub mod wordlist;
