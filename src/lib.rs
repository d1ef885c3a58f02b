pub mod hooks;
pub mod memory;
pub mod rtld;
pub mod text;
