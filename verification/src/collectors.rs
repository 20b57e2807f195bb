pub mod json;
pub mod probe;
pub mod brew;
pub mod mise;
pub mod js;
pub mod cargo;
pub mod python;
pub mod gem;
pub mod go;
pub mod caches;
pub mod macos_apps;
