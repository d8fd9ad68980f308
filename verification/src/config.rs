//! Where the program lives on each cluster.

use vstd::prelude::*;
use crate::identity::Identity;

verus! {

/// Bytes of the program's identity, `USDvCoinProgram1111111111111111111111111111`.
pub const PROGRAM_ID_BYTES: [u8; 32] = [
    7, 7, 51, 133, 140, 79, 117, 42, 70, 61, 4, 64, 8, 127, 169, 187, 59, 79, 197, 160, 92, 188,
    48, 199, 37, 152, 224, 104, 32, 0, 0, 0,
];

/// Bytes of the program state account's identity,
/// `USDvState1111111111111111111111111111111111`.
pub const PROGRAM_STATE_BYTES: [u8; 32] = [
    7, 7, 51, 138, 229, 162, 143, 41, 136, 51, 78, 105, 198, 211, 140, 86, 83, 107, 236, 82, 45,
    46, 117, 37, 70, 115, 106, 220, 0, 0, 0, 0,
];

/// Bytes of the USDv mint's identity, `USDvMint11111111111111111111111111111111111`.
pub const USDV_MINT_BYTES: [u8; 32] = [
    7, 7, 51, 136, 239, 21, 244, 227, 54, 91, 53, 26, 255, 73, 225, 146, 12, 28, 216, 212, 212, 30,
    72, 56, 55, 12, 39, 232, 0, 0, 0, 0,
];

/// Bytes of the mainnet USDC mint's identity,
/// `EPjFWdd5AufqSSqeM2qN1xzybapC8G4wEGGkZwyTDt1v`.
pub const MAINNET_USDC_MINT_BYTES: [u8; 32] = [
    198, 250, 122, 243, 190, 219, 173, 58, 61, 101, 243, 106, 171, 201, 116, 49, 177, 187, 228,
    194, 210, 246, 224, 228, 124, 166, 2, 3, 69, 47, 93, 97,
];

/// Bytes of the devnet USDC mint's identity,
/// `4zMMC9srt5Ri5X14GAgXhaHii3GnPAEERYPJgZJDncDU`.
pub const DEVNET_USDC_MINT_BYTES: [u8; 32] = [
    59, 68, 44, 179, 145, 33, 87, 241, 58, 147, 61, 1, 52, 40, 45, 3, 43, 95, 254, 205, 1, 162, 219,
    241, 183, 121, 6, 8, 223, 0, 46, 167,
];

/// Bytes of the wrapped SOL mint's identity, which stands in for USDC on a
/// local cluster, `So11111111111111111111111111111111111111112`.
pub const WRAPPED_SOL_MINT_BYTES: [u8; 32] = [
    6, 155, 136, 87, 254, 171, 129, 132, 251, 104, 127, 99, 70, 24, 192, 53, 218, 196, 57, 220, 26,
    235, 59, 85, 152, 160, 240, 0, 0, 0, 0, 1,
];

/// Configuration of the USDv program on one cluster.
#[derive(Debug, Clone)]
pub struct USDvConfig {
    /// Identity of the USDv program.
    pub program_id: Identity,
    /// Identity of the program state account.
    pub program_state: Identity,
    /// Identity of the USDC mint.
    pub usdc_mint: Identity,
    /// Identity of the USDv mint.
    pub usdv_mint: Identity,
    /// Name of the cluster.
    pub cluster: String,
}

impl USDvConfig {
    /// The text that `rpc_url` gives for a cluster's name: the public
    /// endpoint of a cluster that is known by name, and the name itself for
    /// any other.
    pub open spec fn spec_rpc_url(cluster: Seq<char>) -> Seq<char> {
        if cluster == "mainnet-beta"@ {
            "https://api.mainnet-beta.solana.com"@
        } else if cluster == "devnet"@ {
            "https://api.devnet.solana.com"@
        } else if cluster == "testnet"@ {
            "https://api.testnet.solana.com"@
        } else if cluster == "localnet"@ {
            "http://localhost:8899"@
        } else {
            cluster
        }
    }

    /// Configuration for the mainnet deployment.
    pub fn mainnet() -> (r: Self)
        ensures
            r.program_id.bytes == PROGRAM_ID_BYTES,
            r.program_state.bytes == PROGRAM_STATE_BYTES,
            r.usdc_mint.bytes == MAINNET_USDC_MINT_BYTES,
            r.usdv_mint.bytes == USDV_MINT_BYTES,
            r.cluster@ == "mainnet-beta"@,
    {
        USDvConfig {
            program_id: Identity { bytes: PROGRAM_ID_BYTES },
            program_state: Identity { bytes: PROGRAM_STATE_BYTES },
            usdc_mint: Identity { bytes: MAINNET_USDC_MINT_BYTES },
            usdv_mint: Identity { bytes: USDV_MINT_BYTES },
            cluster: "mainnet-beta".to_owned(),
        }
    }

    /// Configuration for the devnet deployment.
    pub fn devnet() -> (r: Self)
        ensures
            r.program_id.bytes == PROGRAM_ID_BYTES,
            r.program_state.bytes == PROGRAM_STATE_BYTES,
            r.usdc_mint.bytes == DEVNET_USDC_MINT_BYTES,
            r.usdv_mint.bytes == USDV_MINT_BYTES,
            r.cluster@ == "devnet"@,
    {
        USDvConfig {
            program_id: Identity { bytes: PROGRAM_ID_BYTES },
            program_state: Identity { bytes: PROGRAM_STATE_BYTES },
            usdc_mint: Identity { bytes: DEVNET_USDC_MINT_BYTES },
            usdv_mint: Identity { bytes: USDV_MINT_BYTES },
            cluster: "devnet".to_owned(),
        }
    }

    /// Configuration for local testing, with wrapped SOL in the place of
    /// USDC.
    pub fn localnet() -> (r: Self)
        ensures
            r.program_id.bytes == PROGRAM_ID_BYTES,
            r.program_state.bytes == PROGRAM_STATE_BYTES,
            r.usdc_mint.bytes == WRAPPED_SOL_MINT_BYTES,
            r.usdv_mint.bytes == USDV_MINT_BYTES,
            r.cluster@ == "localnet"@,
    {
        USDvConfig {
            program_id: Identity { bytes: PROGRAM_ID_BYTES },
            program_state: Identity { bytes: PROGRAM_STATE_BYTES },
            usdc_mint: Identity { bytes: WRAPPED_SOL_MINT_BYTES },
            usdv_mint: Identity { bytes: USDV_MINT_BYTES },
            cluster: "localnet".to_owned(),
        }
    }

    /// A configuration of the given parts.
    pub fn custom(
        program_id: Identity,
        program_state: Identity,
        usdc_mint: Identity,
        usdv_mint: Identity,
        cluster: String,
    ) -> (r: Self)
        ensures
            r == (USDvConfig { program_id, program_state, usdc_mint, usdv_mint, cluster }),
    {
        USDvConfig { program_id, program_state, usdc_mint, usdv_mint, cluster }
    }

    /// The RPC URL of the configured cluster.
    pub fn rpc_url(&self) -> (r: String)
        ensures
            r@ == Self::spec_rpc_url(self.cluster@),
    {
        if self.cluster == "mainnet-beta".to_owned() {
            "https://api.mainnet-beta.solana.com".to_owned()
        } else if self.cluster == "devnet".to_owned() {
            "https://api.devnet.solana.com".to_owned()
        } else if self.cluster == "testnet".to_owned() {
            "https://api.testnet.solana.com".to_owned()
        } else if self.cluster == "localnet".to_owned() {
            "http://localhost:8899".to_owned()
        } else {
            self.cluster.clone()
        }
    }
}

} // verus!
