//! The field groups that an observation may carry.

pub mod climate_reference_network;
pub mod cloud_solar;
pub mod ground_surface;
pub mod marine;
pub mod network_metadata;
pub mod precipitation;
pub mod pressure;
pub mod runway_visual_range;
pub mod sea_surface_temperature;
pub mod temperature;
pub mod weather_occurrence;
pub mod wind;
