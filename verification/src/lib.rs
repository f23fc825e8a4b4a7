//! Host-side flashing and exploitation engine for Mediatek SoCs: the
//! download-mode transports, the two DA wire protocols, the in-memory DA
//! security patches, the extension loader, the seccfg service and the SLA
//! signer, with their binary layouts and invariants stated as contracts.

pub mod analysis;
pub mod appstate;
pub mod arm;
pub mod arm64;
pub mod auth;
pub mod cli;
pub mod dapatch;
pub mod error;
pub mod keyring;
pub mod list;
pub mod patching;
pub mod port;
pub mod rsa;
pub mod seccfg;
pub mod storage;
pub mod ui;
pub mod xflash;
pub mod xml;
pub mod xmlcmd;
pub mod xmlexts;
