pub mod artifacts;
pub mod config;
pub mod control;
pub mod coverage;
pub mod demand;
pub mod dependencies;
pub mod desired;
pub mod error;
pub mod finalize;
pub mod install;
pub mod jobs;
pub mod mailpit;
pub mod mysql;
pub mod order;
pub mod passes;
pub mod phases;
pub mod prefetch;
pub mod prefetch_steps;
pub mod progress;
pub mod project;
pub mod resource_scope;
pub mod runtime;
pub mod scope;
pub mod selection;
pub mod start;
pub mod startup;
pub mod stream;
pub mod streamed;
pub mod summary;
pub mod system;
pub mod text;
pub mod timing;
pub mod track;
pub mod update;
