//! Exchange of pixel data between application-side buffers and the flat,
//! row-major layout of texture memory.

pub mod format;
pub mod image_data;
pub mod pixel;
pub mod row_order;
pub mod texture;
