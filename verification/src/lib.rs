//! Remote-attestation client core: the attestation protocol state machine,
//! TPM credential-activation primitives, metadata verification, the
//! processed-metadata dedup store, and the one-shot CSR builder.

pub mod cbor;
pub mod client;
pub mod coap;
pub mod credential;
pub mod crypto;
pub mod csr;
pub mod proto;
pub mod state;
pub mod store;
pub mod tpm;
pub mod verify;
