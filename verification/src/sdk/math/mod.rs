pub mod vector3d;
