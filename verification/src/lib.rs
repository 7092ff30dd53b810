//! A static-site build pipeline: page loading, template rendering, markup
//! rendering, layout composition and sanitising, with the configuration
//! model of the accompanying file server.

pub mod builder;
pub mod copier;
pub mod error;
pub mod frontmatter;
pub mod http;
pub mod laws;
pub mod layout;
pub mod loader;
pub mod logging;
pub mod markup;
pub mod names;
pub mod output;
pub mod page;
pub mod pipeline;
pub mod paths;
pub mod runner;
pub mod template;
pub mod vars;
