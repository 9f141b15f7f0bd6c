pub mod activities;
pub mod alerts;
pub mod credentials;
pub mod data_enrichment;
pub mod doctor;
pub mod entities;
pub mod files;
pub mod listing;
pub mod policies;
