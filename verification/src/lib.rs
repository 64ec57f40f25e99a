//! Assembles Minecraft data packs: namespaces of scripts, JSON documents and
//! tree documents become the files of one zip archive, together with the
//! pack's metadata and the two lists of the scripts that the game runs on
//! load and on every tick.

pub mod archive;
pub mod builder;
pub mod component;
pub mod error;
pub mod namespace;
pub mod tags;
pub mod text;
pub mod trusted;

pub use builder::mcfunction::MCFunction;
pub use builder::structure::Structure;
pub use builder::DataPackBuilder;
