pub mod action;
pub mod backend;
pub mod bind;
pub mod config;
pub mod ipc;
pub mod key;
pub mod layer_rule;
pub mod modifiers;
pub mod node;
pub mod recent;
pub mod scalars;
pub mod sections;
pub mod text;
pub mod window_rule;
