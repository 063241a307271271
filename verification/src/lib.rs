//! Verified core of THE-BRIDGE trading engine: the wire codes of the order
//! vocabulary, counters and their exposition text, the trade pipeline ring,
//! batch-window jitter, compliance (LEI validation, FATF classes, the
//! sanctions screen, the AML transaction monitor, the disclosure ladder),
//! fee tiers, the enclave signer, the threshold encryption envelope, the
//! assistant's command handling, institutional onboarding workflows, the
//! project registry, the policy compiler with its snapshots, the
//! triangular fee legs, the onion-routing privacy layer, the in-memory secret
//! store, sovereign identities sealed for the regulator, the object pool,
//! and the rate limiter and audit log of the HTTP front door.

pub mod text;
pub mod clock;
pub mod types;
pub mod pipeline;
pub mod metrics;
pub mod matching;
pub mod kyc;
pub mod aml;
pub mod revenue;
pub mod liquidity;
pub mod tee;
pub mod threshold_crypto;
pub mod llm_sidecar;
pub mod memory;
pub mod onboarding;
pub mod universal_bridge;
pub mod policy_dsl;
pub mod triangular_fee_network;
pub mod sovereign_ghost;
pub mod memfd_secret;
pub mod sovereign;
pub mod gateway;
pub mod pool;
pub mod orchestrator;
pub mod mev_api;
pub mod prime_brokerage;
