//! Keyboard input-locale observation: resolving operating-system locale
//! identifiers to readable names, and the lifecycle of the provider that
//! reports each change of the active locale to a host-managed channel.

pub mod locale;
pub mod provider;
