//! TIM2 Terminal: the verified core of a physics puzzle game played in a
//! terminal.
//!
//! The part catalog, the game session's modes and parts bin, the register of
//! placed parts, level name resolution, the text renderers that turn an RGBA
//! image into terminal cells, and the texts of the game's screens. Physics,
//! pixel art and terminal I/O live with the programs that use this library.
pub mod controls;
pub mod explorer;
pub mod level;
pub mod mvp;
pub mod parts;
pub mod puzzle;
pub mod render;
pub mod screen;
pub mod session;
pub mod text;
pub mod world;
