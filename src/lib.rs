//! Browsable directory index over a served filesystem subtree: request-path
//! resolution, responder dispatch and page rendering.

pub mod dispatcher;
pub mod encoding;
pub mod helpers;
pub mod paths;
pub mod responders;
pub mod templating;
