//! A verified decoder for the OCTA binary map format: the decompressed
//! payload of the gzip-packed map files ("OGZ") used by Cube-2-family
//! engines. The library reads a fixed header, game-variable overrides,
//! a game identifier, a texture most-recently-used list, entities, a
//! delta-encoded virtual-texture-slot table, and finally the recursive
//! octree of world geometry, all from an owned byte buffer behind a
//! bounds-checked cursor.
//!
//! The `wire` module writes the format down once as specification
//! functions over the byte sequence; every decoding function's
//! contract says that its result and cursor movement are exactly what
//! those functions give. The `laws` module proves the decoder's
//! general guarantees over the same functions.

pub mod bytes;
pub mod cursor;
pub mod driver;
pub mod error;
pub mod gzip;
pub mod header;
pub mod laws;
pub mod model;
pub mod octree;
pub mod skip;
pub mod slots;
pub mod types;
pub mod vslots;
pub mod wire;
