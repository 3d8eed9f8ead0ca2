//! Launch coordination for a desktop markdown viewer: classifying
//! command-line arguments as markdown paths, scanning argument lists,
//! holding a pending file path for the UI to claim once, and deciding
//! what a first launch or a second launch attempt does.

pub mod classify;
pub mod scan;
pub mod slot;
pub mod launch;
