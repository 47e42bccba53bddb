//! Staging and upload of host pixel data into a sampled GPU image.
//!
//! A texture is created once and filled again whenever its pixels change.
//! Each fill writes the pixels into a host-visible staging buffer, row by row
//! at the device's row pitch, and has the device copy them into the image
//! between two layout transitions, behind a fence.
//!
//! The library holds every decision of that pipeline and none of its device
//! calls: [`render_texture::RenderTexture`] says which operation the device
//! must perform next and takes the answer. What it says is stated over
//! [`render_texture::TextureModel`], and proved to keep the image out of
//! reach of sampling unless it is in the shader-read layout, to bring exactly
//! the written pixels into the image, and to leak no device object when an
//! operation fails.

pub mod device;
pub mod error;
pub mod layout;
pub mod memory;
pub mod pixels;
pub mod process;
pub mod render_texture;
pub mod staging;
pub mod text_render;
pub mod upload;
