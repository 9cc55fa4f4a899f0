//! Controller of a desktop wizard that turns a URL into a launchable web app
//! entry: the warning tracker, the icon candidate store, the creator form, the
//! installator and the page state machine that ties them together.

pub mod common;
pub mod pages;
pub mod warning;
