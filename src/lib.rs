//! An encryption service core and a resource-metrics model.
//!
//! `padding` holds PKCS#7 block padding, `cipher` CBC/AES-128 over padded
//! messages, `service` the request-level operation with its base64 transport
//! encoding, and `metrics` the gauge registry together with the memory
//! sampler's step.

pub mod cipher;
pub mod metrics;
pub mod padding;
pub mod service;

pub use cipher::{decrypt_bytes, encrypt_bytes, KeyMaterial};
pub use metrics::{
    sampler_step, MetricsRegistry, SamplerAction, SamplerEvent, StartTime, BYTES_PER_KIB,
    SAMPLE_INTERVAL_SECS,
};
pub use padding::{pkcs7_pad, pkcs7_unpad, BLOCK_SIZE};
pub use service::{encrypt, EncryptRequest, EncryptResponse};
