use crate::config::{Config, ConfigType};
use vstd::prelude::*;

verus! {

/// The config types of layers.
pub trait LayerConfig {
    type CookieAuth: ConfigType;
}

impl LayerConfig for Config {
    type CookieAuth = crate::cookies::CookieAuthConf;
}

} // verus!
