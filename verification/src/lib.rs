//! The decisions of an image viewer and wallpaper setter, verified.

pub mod cache;
pub mod config;
pub mod context;
pub mod decode;
pub mod device;
pub mod drawing;
pub mod frame;
pub mod gallery;
pub mod layout;
pub mod path;
pub mod pipeline;
pub mod rebuild;
pub mod setup;
pub mod surface;
pub mod swapchain;
pub mod texture;
pub mod upload;
pub mod viewer;
pub mod wallpaper;
