//! Translation between a provider-neutral chat-completion model and the
//! Anthropic messages API: conversation messages and tool specifications
//! become a vendor request, and the vendor's content blocks become a
//! completion response.
pub mod model;
pub mod vendor;
pub mod request;
pub mod response;
