//! Reads what the command line client of NordVPN prints, and turns it into
//! typed values: the account, the connection, lists of places, the version,
//! and the outcome of changing a setting.
//!
//! Nothing here runs a process. Each operation comes in two halves: a command
//! line to run ([`nordvpn::NordVPN`], [`nordvpn::Setting::command`]), and a
//! function that reads what running it came to ([`nordvpn::Spawned`]). The
//! caller runs the one and hands the result to the other, so that every reply
//! can be read from a fixture as well as from the tool.
//!
//! [`net`] holds addresses and their written forms, [`text`] what is done to
//! texts, and [`build_helpers`] what the build needs to describe a bundle of
//! resources.

pub mod build_helpers;
pub mod net;
pub mod nordvpn;
pub mod text;
