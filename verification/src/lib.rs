//! Verified core of Prisma Desktop: the settings store, the mirror
//! history, the TorrServer manager's decisions and the VLC proxy's routing.
pub mod text;
pub mod json;
pub mod services;
pub mod backend;
pub mod models;
