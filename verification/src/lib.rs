//! The decision core of a sheet-music library server.

pub mod api;
pub mod api_archive;
pub mod api_auth;
pub mod api_collections;
pub mod api_files;
pub mod api_orgs;
pub mod arrangement_form;
pub mod arrangement_screens;
pub mod arrangements;
pub mod assignments;
pub mod audit;
pub mod collection_screens;
pub mod collections;
pub mod console;
pub mod console_files;
pub mod coverage;
pub mod date;
pub mod error;
pub mod files;
pub mod form;
pub mod id;
pub mod instance;
pub mod instruments;
pub mod json;
pub mod listing;
pub mod lists;
pub mod members;
pub mod model;
pub mod number;
pub mod order;
pub mod reorder;
pub mod reply;
pub mod request;
pub mod role;
pub mod search;
pub mod size;
pub mod storage;
pub mod tags;
pub mod text;
pub mod transfer;
pub mod urls;
