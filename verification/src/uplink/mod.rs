//! Uplink: share links, the storage/REST endpoints of the backend, team
//! comments and the self-hosted updater.
pub mod share;
pub mod supabase;
pub mod team;
pub mod updater;
