pub mod cursor;
pub mod pace;
pub mod queue;
pub mod scene;
pub mod timing;
pub mod window;
