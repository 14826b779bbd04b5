//! The decisions of a mock-server adapter, apart from the work around them.
//!
//! An adapter lets test code set up, inspect, verify and tear down a mock
//! HTTP server, whether the server lives in this process or in another. This
//! crate holds what such an adapter decides: which request an operation
//! sends, what a response means, and the text of every failure. It sends and
//! receives nothing: an operation on a remote server is a function from what
//! the exchange has brought so far (`exchange::Progress`) to what is to
//! happen next (`exchange::Next`), and whoever drives it encodes, sends and
//! decodes. `protocol` is the model that the operations are held to, and
//! `session` proves what a driven exchange comes to.

pub use adapter::{
    local::LocalMockServerAdapter, standalone::RemoteMockServerAdapter, InternalHttpClient,
    MockServerAdapter,
};
pub use encoding::{url_encoded, MaybeEncoded, URLEncodedExtension};
pub use method::Method;

pub mod adapter;
pub mod address;
pub mod data;
pub mod encoding;
pub mod exchange;
pub mod method;
pub mod protocol;
pub mod session;
pub mod text;
