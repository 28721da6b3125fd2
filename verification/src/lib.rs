//! Verified core of a Discord bot that searches movies and keeps a list of
//! the movies that were rated.

pub mod commands;
pub mod listing;
pub mod messages;
pub mod query;
pub mod rating;
pub mod text;
pub mod tmdb;
