//! Backend library of a desktop API client: it relays generic HTTP requests
//! on behalf of a UI and assembles GraphQL calls on top of the same relay,
//! normalizing responses and classifying errors before they cross back to the
//! caller.  The modules around the relay hold the plain data shapes and the
//! computational pieces of the surrounding application (pagination, filter
//! building, settings parsing).

pub mod endpoint;
pub mod form_url;
pub mod graphql;
pub mod http_method;
pub mod json_text;
pub mod pagination;
pub mod relay;
pub mod request_history;
pub mod settings;
pub mod text;
