pub mod appsystem;
pub mod clientmode;
pub mod engine;
pub mod entitylist;
pub mod gameevent;
pub mod input;
pub mod localize;
pub mod panel;
pub mod v_debug_overlay;
