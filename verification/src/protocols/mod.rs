pub mod blender;
pub mod ios;
