//! Client library for a remote payment-account API: typed request building,
//! response envelope decoding, paginated history and the authorization flow.
//! Every network exchange is performed by the caller; the library decides
//! what is sent and what a response means.

pub mod text;
pub mod params;
pub mod transport;
pub mod error;
pub mod envelope;
pub mod models;
pub mod client;
pub mod history;
pub mod auth;

pub use auth::{AuthAction, AuthEvent, AuthFlow, AuthState, UnauthorizedClient};
pub use client::{ApiCall, Client, PaymentRequest, TestPaymentRequest};
pub use envelope::{decode_envelope, decode_response, empty_response, Decoded, Rsp};
pub use error::Error;
pub use history::{OperationHistory, UtcTime};
pub use models::{
    AccessScope, Decimal, OperationHistoryResponse, Phone, ProcessPaymentMoneySource, ReqOperationType,
    RequestAmount, Secure3D, TokenExchangeData, UserId,
};
pub use params::Params;
