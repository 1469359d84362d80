//! A dotfiles manager: resolves which source folders apply to this machine,
//! plans the symbolic links from those folders into the home and XDG config
//! directories, classifies what linking found, and drives the git pull and
//! commit workflows, signed or not, as explicit state machines whose actions
//! the caller performs.
pub mod cli;
pub mod commit;
pub mod config;
pub mod error;
pub mod link;
pub mod paths;
pub mod plan;
pub mod pull;
pub mod steps;
pub mod system;
