//! Verified core of the desktop element-extraction library.
use vstd::prelude::*;

pub mod text;
pub mod lsappinfo;
pub mod electron;
pub mod settings;
pub mod paths;
pub mod session;
pub mod capture;
pub mod bundle;
pub mod native_format;
pub mod framework;
pub mod pe;
pub mod cdp;
pub mod dispatch;
pub mod asar;
pub mod xaml;
pub mod tap;
pub mod image_diff;
pub mod relaunch;
pub mod overlay;

verus! {
} // verus!
