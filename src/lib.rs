//! Client logic for the ETSI GS QKD 014 key-delivery REST interface: the requests for a key
//! management entity's status, for new keys and for keys already issued, and how its replies
//! are read into keys or into one error shape.
pub mod json;
pub mod messages;
pub mod endpoint;

pub use json::Json;
pub use messages::{
    Error, KeyId, KeyIdRequest, KeyRequest, KeyResponse, QKDKey, QKDKeyPair, StatusResponse,
};
pub use endpoint::{EndpointETSI, Method, Reply, Request, keys_from_reply, status_from_reply};
