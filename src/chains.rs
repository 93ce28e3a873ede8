//! The chains under test and their pallets.
use vstd::prelude::*;
use crate::text::{lower_of, lowercase, text_eq};

verus! {

/// A chain whose API can be compared.
#[derive(Clone, Copy, Debug, PartialEq, Eq, Structural)]
pub enum Chain {
    Polkadot,
    Kusama,
    AssetHubPolkadot,
    AssetHubKusama,
}

/// A pallet of a chain: its name and its index in the runtime.
#[derive(Clone, Copy, Debug)]
pub struct Pallet {
    pub name: &'static str,
    pub index: u8,
}

/// The name of each chain.
pub open spec fn chain_name_of(c: Chain) -> Seq<char> {
    match c {
        Chain::Polkadot => "polkadot"@,
        Chain::Kusama => "kusama"@,
        Chain::AssetHubPolkadot => "asset-hub-polkadot"@,
        Chain::AssetHubKusama => "asset-hub-kusama"@,
    }
}

/// `s` names the chain, by its name or one of its short names.
pub open spec fn names_chain(c: Chain, s: Seq<char>) -> bool {
    match c {
        Chain::Polkadot => s == "polkadot"@ || s == "dot"@,
        Chain::Kusama => s == "kusama"@ || s == "ksm"@,
        Chain::AssetHubPolkadot => s == "asset-hub-polkadot"@ || s == "ahp"@ || s == "statemint"@,
        Chain::AssetHubKusama => s == "asset-hub-kusama"@ || s == "ahk"@ || s == "statemine"@,
    }
}

/// The pallets of each chain, as (name, index), in runtime order.
pub open spec fn pallets_of(c: Chain) -> Seq<(Seq<char>, u8)> {
    match c {
        Chain::Polkadot => seq![
            ("System"@, 0u8),
            ("Scheduler"@, 1u8),
            ("Babe"@, 2u8),
            ("Timestamp"@, 3u8),
            ("Indices"@, 4u8),
            ("Balances"@, 5u8),
            ("Authorship"@, 6u8),
            ("Staking"@, 7u8),
            ("Offences"@, 8u8),
            ("Session"@, 9u8),
            ("Preimage"@, 10u8),
            ("Grandpa"@, 11u8),
            ("AuthorityDiscovery"@, 13u8),
            ("Treasury"@, 19u8),
            ("ConvictionVoting"@, 20u8),
            ("Referenda"@, 21u8),
            ("Origins"@, 22u8),
            ("Whitelist"@, 23u8),
            ("Claims"@, 24u8),
            ("Vesting"@, 25u8),
            ("Utility"@, 26u8),
            ("Proxy"@, 29u8),
            ("Multisig"@, 30u8),
            ("TransactionPayment"@, 32u8),
            ("Historical"@, 33u8),
            ("Bounties"@, 34u8),
            ("ElectionProviderMultiPhase"@, 36u8),
            ("VoterList"@, 37u8),
            ("ChildBounties"@, 38u8),
            ("NominationPools"@, 39u8),
            ("FastUnstake"@, 40u8),
            ("DelegatedStaking"@, 41u8),
            ("StakingAhClient"@, 42u8),
            ("ParachainsOrigin"@, 50u8),
            ("Configuration"@, 51u8),
            ("ParasShared"@, 52u8),
            ("ParaInclusion"@, 53u8),
            ("ParaInherent"@, 54u8),
            ("ParaScheduler"@, 55u8),
            ("Paras"@, 56u8),
            ("Initializer"@, 57u8),
            ("Dmp"@, 58u8),
            ("Hrmp"@, 60u8),
            ("ParaSessionInfo"@, 61u8),
            ("ParasDisputes"@, 62u8),
            ("ParasSlashing"@, 63u8),
            ("OnDemand"@, 64u8),
            ("CoretimeAssignmentProvider"@, 65u8),
            ("Registrar"@, 70u8),
            ("Slots"@, 71u8),
            ("Auctions"@, 72u8),
            ("Crowdloan"@, 73u8),
            ("Coretime"@, 74u8),
            ("StateTrieMigration"@, 98u8),
            ("XcmPallet"@, 99u8),
            ("MessageQueue"@, 100u8),
            ("AssetRate"@, 101u8),
            ("Beefy"@, 200u8),
            ("Mmr"@, 201u8),
            ("BeefyMmrLeaf"@, 202u8),
            ("RcMigrator"@, 255u8),
        ],
        Chain::Kusama => seq![
            ("System"@, 0u8),
            ("Babe"@, 1u8),
            ("Timestamp"@, 2u8),
            ("Indices"@, 3u8),
            ("Balances"@, 4u8),
            ("Authorship"@, 5u8),
            ("Staking"@, 6u8),
            ("Offences"@, 7u8),
            ("Session"@, 8u8),
            ("Grandpa"@, 10u8),
            ("AuthorityDiscovery"@, 12u8),
            ("Treasury"@, 18u8),
            ("Claims"@, 19u8),
            ("ConvictionVoting"@, 20u8),
            ("Referenda"@, 21u8),
            ("FellowshipCollective"@, 22u8),
            ("FellowshipReferenda"@, 23u8),
            ("Utility"@, 24u8),
            ("Society"@, 26u8),
            ("Recovery"@, 27u8),
            ("Vesting"@, 28u8),
            ("Scheduler"@, 29u8),
            ("Proxy"@, 30u8),
            ("Multisig"@, 31u8),
            ("Preimage"@, 32u8),
            ("TransactionPayment"@, 33u8),
            ("Historical"@, 34u8),
            ("Bounties"@, 35u8),
            ("ElectionProviderMultiPhase"@, 37u8),
            ("VoterList"@, 39u8),
            ("ChildBounties"@, 40u8),
            ("NominationPools"@, 41u8),
            ("FastUnstake"@, 42u8),
            ("Origins"@, 43u8),
            ("Whitelist"@, 44u8),
            ("Parameters"@, 46u8),
            ("DelegatedStaking"@, 47u8),
            ("StakingAhClient"@, 48u8),
            ("ParachainsOrigin"@, 50u8),
            ("Configuration"@, 51u8),
            ("ParasShared"@, 52u8),
            ("ParaInclusion"@, 53u8),
            ("ParaInherent"@, 54u8),
            ("ParaScheduler"@, 55u8),
            ("Paras"@, 56u8),
            ("Initializer"@, 57u8),
            ("Dmp"@, 58u8),
            ("Hrmp"@, 60u8),
            ("ParaSessionInfo"@, 61u8),
            ("ParasDisputes"@, 62u8),
            ("ParasSlashing"@, 63u8),
            ("OnDemandAssignmentProvider"@, 64u8),
            ("CoretimeAssignmentProvider"@, 65u8),
            ("Registrar"@, 70u8),
            ("Slots"@, 71u8),
            ("Auctions"@, 72u8),
            ("Crowdloan"@, 73u8),
            ("Coretime"@, 74u8),
            ("XcmPallet"@, 99u8),
            ("MessageQueue"@, 100u8),
            ("AssetRate"@, 101u8),
            ("Beefy"@, 200u8),
            ("Mmr"@, 201u8),
            ("BeefyMmrLeaf"@, 202u8),
            ("RcMigrator"@, 255u8),
        ],
        Chain::AssetHubPolkadot => seq![
            ("System"@, 0u8),
            ("ParachainSystem"@, 1u8),
            ("Timestamp"@, 3u8),
            ("ParachainInfo"@, 4u8),
            ("Preimage"@, 5u8),
            ("Scheduler"@, 6u8),
            ("Parameters"@, 7u8),
            ("WeightReclaim"@, 8u8),
            ("Balances"@, 10u8),
            ("TransactionPayment"@, 11u8),
            ("AssetTxPayment"@, 13u8),
            ("Vesting"@, 14u8),
            ("Claims"@, 15u8),
            ("Authorship"@, 20u8),
            ("CollatorSelection"@, 21u8),
            ("Session"@, 22u8),
            ("Aura"@, 23u8),
            ("AuraExt"@, 24u8),
            ("XcmpQueue"@, 30u8),
            ("PolkadotXcm"@, 31u8),
            ("CumulusXcm"@, 32u8),
            ("ToKusamaXcmRouter"@, 34u8),
            ("MessageQueue"@, 35u8),
            ("SnowbridgeSystemFrontend"@, 36u8),
            ("Utility"@, 40u8),
            ("Multisig"@, 41u8),
            ("Proxy"@, 42u8),
            ("Indices"@, 43u8),
            ("Assets"@, 50u8),
            ("Uniques"@, 51u8),
            ("Nfts"@, 52u8),
            ("ForeignAssets"@, 53u8),
            ("PoolAssets"@, 54u8),
            ("AssetConversion"@, 55u8),
            ("Treasury"@, 60u8),
            ("ConvictionVoting"@, 61u8),
            ("Referenda"@, 62u8),
            ("Origins"@, 63u8),
            ("Whitelist"@, 64u8),
            ("Bounties"@, 65u8),
            ("ChildBounties"@, 66u8),
            ("AssetRate"@, 67u8),
            ("StateTrieMigration"@, 70u8),
            ("NominationPools"@, 80u8),
            ("VoterList"@, 82u8),
            ("DelegatedStaking"@, 83u8),
            ("StakingRcClient"@, 84u8),
            ("MultiBlockElection"@, 85u8),
            ("MultiBlockElectionVerifier"@, 86u8),
            ("MultiBlockElectionUnsigned"@, 87u8),
            ("MultiBlockElectionSigned"@, 88u8),
            ("Staking"@, 89u8),
            ("Revive"@, 90u8),
            ("AhOps"@, 254u8),
            ("AhMigrator"@, 255u8),
        ],
        Chain::AssetHubKusama => seq![
            ("System"@, 0u8),
            ("ParachainSystem"@, 1u8),
            ("Timestamp"@, 3u8),
            ("ParachainInfo"@, 4u8),
            ("MultiBlockMigrations"@, 5u8),
            ("Preimage"@, 6u8),
            ("Scheduler"@, 7u8),
            ("Parameters"@, 8u8),
            ("WeightReclaim"@, 9u8),
            ("Balances"@, 10u8),
            ("TransactionPayment"@, 11u8),
            ("AssetTxPayment"@, 13u8),
            ("Vesting"@, 14u8),
            ("Claims"@, 15u8),
            ("Authorship"@, 20u8),
            ("CollatorSelection"@, 21u8),
            ("Session"@, 22u8),
            ("Aura"@, 23u8),
            ("AuraExt"@, 24u8),
            ("XcmpQueue"@, 30u8),
            ("PolkadotXcm"@, 31u8),
            ("CumulusXcm"@, 32u8),
            ("ToPolkadotXcmRouter"@, 34u8),
            ("MessageQueue"@, 35u8),
            ("Utility"@, 40u8),
            ("Multisig"@, 41u8),
            ("Proxy"@, 42u8),
            ("RemoteProxyRelayChain"@, 43u8),
            ("Indices"@, 44u8),
            ("Assets"@, 50u8),
            ("Uniques"@, 51u8),
            ("Nfts"@, 52u8),
            ("ForeignAssets"@, 53u8),
            ("NftFractionalization"@, 54u8),
            ("PoolAssets"@, 55u8),
            ("AssetConversion"@, 56u8),
            ("Recovery"@, 57u8),
            ("Society"@, 58u8),
            ("Revive"@, 60u8),
            ("StateTrieMigration"@, 70u8),
            ("NominationPools"@, 80u8),
            ("VoterList"@, 82u8),
            ("DelegatedStaking"@, 83u8),
            ("StakingRcClient"@, 84u8),
            ("MultiBlockElection"@, 85u8),
            ("MultiBlockElectionVerifier"@, 86u8),
            ("MultiBlockElectionUnsigned"@, 87u8),
            ("MultiBlockElectionSigned"@, 88u8),
            ("Staking"@, 89u8),
            ("Treasury"@, 90u8),
            ("ConvictionVoting"@, 91u8),
            ("Referenda"@, 92u8),
            ("Origins"@, 93u8),
            ("Whitelist"@, 94u8),
            ("Bounties"@, 95u8),
            ("ChildBounties"@, 96u8),
            ("AssetRate"@, 97u8),
            ("AhOps"@, 254u8),
            ("AhMigrator"@, 255u8),
        ],
    }
}

pub open spec fn pallet_entries(ps: Seq<Pallet>) -> Seq<(Seq<char>, u8)> {
    ps.map_values(|p: Pallet| (p.name@, p.index))
}

/// The list of valid names shown after an unknown chain name.
pub const UNKNOWN_CHAIN_HELP: &'static str = "'. Valid options: polkadot, kusama, asset-hub-polkadot, asset-hub-kusama";

impl Chain {
    /// The name of the chain.
    pub fn name(&self) -> (r: &'static str)
        ensures
            r@ == chain_name_of(*self),
    {
        match self {
            Chain::Polkadot => "polkadot",
            Chain::Kusama => "kusama",
            Chain::AssetHubPolkadot => "asset-hub-polkadot",
            Chain::AssetHubKusama => "asset-hub-kusama",
        }
    }

    /// Reads a chain name or short name, regardless of case.
    pub fn parse(s: &str) -> (r: Result<Chain, String>)
        ensures
            match r {
                Ok(c) => names_chain(c, lower_of(s@)),
                Err(msg) => {
                    &&& forall|c: Chain| !names_chain(c, lower_of(s@))
                    &&& msg@ == "Unknown chain '"@ + s@ + UNKNOWN_CHAIN_HELP@
                },
            },
    {
        let lower = lowercase(s);
        let l = lower.as_str();
        if text_eq(l, "polkadot") || text_eq(l, "dot") {
            return Ok(Chain::Polkadot);
        }
        if text_eq(l, "kusama") || text_eq(l, "ksm") {
            return Ok(Chain::Kusama);
        }
        if text_eq(l, "asset-hub-polkadot") || text_eq(l, "ahp") || text_eq(l, "statemint") {
            return Ok(Chain::AssetHubPolkadot);
        }
        if text_eq(l, "asset-hub-kusama") || text_eq(l, "ahk") || text_eq(l, "statemine") {
            return Ok(Chain::AssetHubKusama);
        }
        let mut msg = String::from_str("Unknown chain '");
        msg.append(s);
        msg.append(UNKNOWN_CHAIN_HELP);
        Err(msg)
    }

    /// All the chains, in a fixed order.
    pub fn all() -> (r: Vec<Chain>)
        ensures
            r@ == seq![Chain::Polkadot, Chain::Kusama, Chain::AssetHubPolkadot, Chain::AssetHubKusama],
    {
        vec![Chain::Polkadot, Chain::Kusama, Chain::AssetHubPolkadot, Chain::AssetHubKusama]
    }

    /// The pallets of this chain, in runtime order.
    pub fn pallets(&self) -> (r: Vec<Pallet>)
        ensures
            pallet_entries(r@) == pallets_of(*self),
    {
        match self {
            Chain::Polkadot => {
                let r = vec![
                    Pallet { name: "System", index: 0 },
                    Pallet { name: "Scheduler", index: 1 },
                    Pallet { name: "Babe", index: 2 },
                    Pallet { name: "Timestamp", index: 3 },
                    Pallet { name: "Indices", index: 4 },
                    Pallet { name: "Balances", index: 5 },
                    Pallet { name: "Authorship", index: 6 },
                    Pallet { name: "Staking", index: 7 },
                    Pallet { name: "Offences", index: 8 },
                    Pallet { name: "Session", index: 9 },
                    Pallet { name: "Preimage", index: 10 },
                    Pallet { name: "Grandpa", index: 11 },
                    Pallet { name: "AuthorityDiscovery", index: 13 },
                    Pallet { name: "Treasury", index: 19 },
                    Pallet { name: "ConvictionVoting", index: 20 },
                    Pallet { name: "Referenda", index: 21 },
                    Pallet { name: "Origins", index: 22 },
                    Pallet { name: "Whitelist", index: 23 },
                    Pallet { name: "Claims", index: 24 },
                    Pallet { name: "Vesting", index: 25 },
                    Pallet { name: "Utility", index: 26 },
                    Pallet { name: "Proxy", index: 29 },
                    Pallet { name: "Multisig", index: 30 },
                    Pallet { name: "TransactionPayment", index: 32 },
                    Pallet { name: "Historical", index: 33 },
                    Pallet { name: "Bounties", index: 34 },
                    Pallet { name: "ElectionProviderMultiPhase", index: 36 },
                    Pallet { name: "VoterList", index: 37 },
                    Pallet { name: "ChildBounties", index: 38 },
                    Pallet { name: "NominationPools", index: 39 },
                    Pallet { name: "FastUnstake", index: 40 },
                    Pallet { name: "DelegatedStaking", index: 41 },
                    Pallet { name: "StakingAhClient", index: 42 },
                    Pallet { name: "ParachainsOrigin", index: 50 },
                    Pallet { name: "Configuration", index: 51 },
                    Pallet { name: "ParasShared", index: 52 },
                    Pallet { name: "ParaInclusion", index: 53 },
                    Pallet { name: "ParaInherent", index: 54 },
                    Pallet { name: "ParaScheduler", index: 55 },
                    Pallet { name: "Paras", index: 56 },
                    Pallet { name: "Initializer", index: 57 },
                    Pallet { name: "Dmp", index: 58 },
                    Pallet { name: "Hrmp", index: 60 },
                    Pallet { name: "ParaSessionInfo", index: 61 },
                    Pallet { name: "ParasDisputes", index: 62 },
                    Pallet { name: "ParasSlashing", index: 63 },
                    Pallet { name: "OnDemand", index: 64 },
                    Pallet { name: "CoretimeAssignmentProvider", index: 65 },
                    Pallet { name: "Registrar", index: 70 },
                    Pallet { name: "Slots", index: 71 },
                    Pallet { name: "Auctions", index: 72 },
                    Pallet { name: "Crowdloan", index: 73 },
                    Pallet { name: "Coretime", index: 74 },
                    Pallet { name: "StateTrieMigration", index: 98 },
                    Pallet { name: "XcmPallet", index: 99 },
                    Pallet { name: "MessageQueue", index: 100 },
                    Pallet { name: "AssetRate", index: 101 },
                    Pallet { name: "Beefy", index: 200 },
                    Pallet { name: "Mmr", index: 201 },
                    Pallet { name: "BeefyMmrLeaf", index: 202 },
                    Pallet { name: "RcMigrator", index: 255 },
                ];
                assert(pallet_entries(r@) =~= pallets_of(*self));
                r
            },
            Chain::Kusama => {
                let r = vec![
                    Pallet { name: "System", index: 0 },
                    Pallet { name: "Babe", index: 1 },
                    Pallet { name: "Timestamp", index: 2 },
                    Pallet { name: "Indices", index: 3 },
                    Pallet { name: "Balances", index: 4 },
                    Pallet { name: "Authorship", index: 5 },
                    Pallet { name: "Staking", index: 6 },
                    Pallet { name: "Offences", index: 7 },
                    Pallet { name: "Session", index: 8 },
                    Pallet { name: "Grandpa", index: 10 },
                    Pallet { name: "AuthorityDiscovery", index: 12 },
                    Pallet { name: "Treasury", index: 18 },
                    Pallet { name: "Claims", index: 19 },
                    Pallet { name: "ConvictionVoting", index: 20 },
                    Pallet { name: "Referenda", index: 21 },
                    Pallet { name: "FellowshipCollective", index: 22 },
                    Pallet { name: "FellowshipReferenda", index: 23 },
                    Pallet { name: "Utility", index: 24 },
                    Pallet { name: "Society", index: 26 },
                    Pallet { name: "Recovery", index: 27 },
                    Pallet { name: "Vesting", index: 28 },
                    Pallet { name: "Scheduler", index: 29 },
                    Pallet { name: "Proxy", index: 30 },
                    Pallet { name: "Multisig", index: 31 },
                    Pallet { name: "Preimage", index: 32 },
                    Pallet { name: "TransactionPayment", index: 33 },
                    Pallet { name: "Historical", index: 34 },
                    Pallet { name: "Bounties", index: 35 },
                    Pallet { name: "ElectionProviderMultiPhase", index: 37 },
                    Pallet { name: "VoterList", index: 39 },
                    Pallet { name: "ChildBounties", index: 40 },
                    Pallet { name: "NominationPools", index: 41 },
                    Pallet { name: "FastUnstake", index: 42 },
                    Pallet { name: "Origins", index: 43 },
                    Pallet { name: "Whitelist", index: 44 },
                    Pallet { name: "Parameters", index: 46 },
                    Pallet { name: "DelegatedStaking", index: 47 },
                    Pallet { name: "StakingAhClient", index: 48 },
                    Pallet { name: "ParachainsOrigin", index: 50 },
                    Pallet { name: "Configuration", index: 51 },
                    Pallet { name: "ParasShared", index: 52 },
                    Pallet { name: "ParaInclusion", index: 53 },
                    Pallet { name: "ParaInherent", index: 54 },
                    Pallet { name: "ParaScheduler", index: 55 },
                    Pallet { name: "Paras", index: 56 },
                    Pallet { name: "Initializer", index: 57 },
                    Pallet { name: "Dmp", index: 58 },
                    Pallet { name: "Hrmp", index: 60 },
                    Pallet { name: "ParaSessionInfo", index: 61 },
                    Pallet { name: "ParasDisputes", index: 62 },
                    Pallet { name: "ParasSlashing", index: 63 },
                    Pallet { name: "OnDemandAssignmentProvider", index: 64 },
                    Pallet { name: "CoretimeAssignmentProvider", index: 65 },
                    Pallet { name: "Registrar", index: 70 },
                    Pallet { name: "Slots", index: 71 },
                    Pallet { name: "Auctions", index: 72 },
                    Pallet { name: "Crowdloan", index: 73 },
                    Pallet { name: "Coretime", index: 74 },
                    Pallet { name: "XcmPallet", index: 99 },
                    Pallet { name: "MessageQueue", index: 100 },
                    Pallet { name: "AssetRate", index: 101 },
                    Pallet { name: "Beefy", index: 200 },
                    Pallet { name: "Mmr", index: 201 },
                    Pallet { name: "BeefyMmrLeaf", index: 202 },
                    Pallet { name: "RcMigrator", index: 255 },
                ];
                assert(pallet_entries(r@) =~= pallets_of(*self));
                r
            },
            Chain::AssetHubPolkadot => {
                let r = vec![
                    Pallet { name: "System", index: 0 },
                    Pallet { name: "ParachainSystem", index: 1 },
                    Pallet { name: "Timestamp", index: 3 },
                    Pallet { name: "ParachainInfo", index: 4 },
                    Pallet { name: "Preimage", index: 5 },
                    Pallet { name: "Scheduler", index: 6 },
                    Pallet { name: "Parameters", index: 7 },
                    Pallet { name: "WeightReclaim", index: 8 },
                    Pallet { name: "Balances", index: 10 },
                    Pallet { name: "TransactionPayment", index: 11 },
                    Pallet { name: "AssetTxPayment", index: 13 },
                    Pallet { name: "Vesting", index: 14 },
                    Pallet { name: "Claims", index: 15 },
                    Pallet { name: "Authorship", index: 20 },
                    Pallet { name: "CollatorSelection", index: 21 },
                    Pallet { name: "Session", index: 22 },
                    Pallet { name: "Aura", index: 23 },
                    Pallet { name: "AuraExt", index: 24 },
                    Pallet { name: "XcmpQueue", index: 30 },
                    Pallet { name: "PolkadotXcm", index: 31 },
                    Pallet { name: "CumulusXcm", index: 32 },
                    Pallet { name: "ToKusamaXcmRouter", index: 34 },
                    Pallet { name: "MessageQueue", index: 35 },
                    Pallet { name: "SnowbridgeSystemFrontend", index: 36 },
                    Pallet { name: "Utility", index: 40 },
                    Pallet { name: "Multisig", index: 41 },
                    Pallet { name: "Proxy", index: 42 },
                    Pallet { name: "Indices", index: 43 },
                    Pallet { name: "Assets", index: 50 },
                    Pallet { name: "Uniques", index: 51 },
                    Pallet { name: "Nfts", index: 52 },
                    Pallet { name: "ForeignAssets", index: 53 },
                    Pallet { name: "PoolAssets", index: 54 },
                    Pallet { name: "AssetConversion", index: 55 },
                    Pallet { name: "Treasury", index: 60 },
                    Pallet { name: "ConvictionVoting", index: 61 },
                    Pallet { name: "Referenda", index: 62 },
                    Pallet { name: "Origins", index: 63 },
                    Pallet { name: "Whitelist", index: 64 },
                    Pallet { name: "Bounties", index: 65 },
                    Pallet { name: "ChildBounties", index: 66 },
                    Pallet { name: "AssetRate", index: 67 },
                    Pallet { name: "StateTrieMigration", index: 70 },
                    Pallet { name: "NominationPools", index: 80 },
                    Pallet { name: "VoterList", index: 82 },
                    Pallet { name: "DelegatedStaking", index: 83 },
                    Pallet { name: "StakingRcClient", index: 84 },
                    Pallet { name: "MultiBlockElection", index: 85 },
                    Pallet { name: "MultiBlockElectionVerifier", index: 86 },
                    Pallet { name: "MultiBlockElectionUnsigned", index: 87 },
                    Pallet { name: "MultiBlockElectionSigned", index: 88 },
                    Pallet { name: "Staking", index: 89 },
                    Pallet { name: "Revive", index: 90 },
                    Pallet { name: "AhOps", index: 254 },
                    Pallet { name: "AhMigrator", index: 255 },
                ];
                assert(pallet_entries(r@) =~= pallets_of(*self));
                r
            },
            Chain::AssetHubKusama => {
                let r = vec![
                    Pallet { name: "System", index: 0 },
                    Pallet { name: "ParachainSystem", index: 1 },
                    Pallet { name: "Timestamp", index: 3 },
                    Pallet { name: "ParachainInfo", index: 4 },
                    Pallet { name: "MultiBlockMigrations", index: 5 },
                    Pallet { name: "Preimage", index: 6 },
                    Pallet { name: "Scheduler", index: 7 },
                    Pallet { name: "Parameters", index: 8 },
                    Pallet { name: "WeightReclaim", index: 9 },
                    Pallet { name: "Balances", index: 10 },
                    Pallet { name: "TransactionPayment", index: 11 },
                    Pallet { name: "AssetTxPayment", index: 13 },
                    Pallet { name: "Vesting", index: 14 },
                    Pallet { name: "Claims", index: 15 },
                    Pallet { name: "Authorship", index: 20 },
                    Pallet { name: "CollatorSelection", index: 21 },
                    Pallet { name: "Session", index: 22 },
                    Pallet { name: "Aura", index: 23 },
                    Pallet { name: "AuraExt", index: 24 },
                    Pallet { name: "XcmpQueue", index: 30 },
                    Pallet { name: "PolkadotXcm", index: 31 },
                    Pallet { name: "CumulusXcm", index: 32 },
                    Pallet { name: "ToPolkadotXcmRouter", index: 34 },
                    Pallet { name: "MessageQueue", index: 35 },
                    Pallet { name: "Utility", index: 40 },
                    Pallet { name: "Multisig", index: 41 },
                    Pallet { name: "Proxy", index: 42 },
                    Pallet { name: "RemoteProxyRelayChain", index: 43 },
                    Pallet { name: "Indices", index: 44 },
                    Pallet { name: "Assets", index: 50 },
                    Pallet { name: "Uniques", index: 51 },
                    Pallet { name: "Nfts", index: 52 },
                    Pallet { name: "ForeignAssets", index: 53 },
                    Pallet { name: "NftFractionalization", index: 54 },
                    Pallet { name: "PoolAssets", index: 55 },
                    Pallet { name: "AssetConversion", index: 56 },
                    Pallet { name: "Recovery", index: 57 },
                    Pallet { name: "Society", index: 58 },
                    Pallet { name: "Revive", index: 60 },
                    Pallet { name: "StateTrieMigration", index: 70 },
                    Pallet { name: "NominationPools", index: 80 },
                    Pallet { name: "VoterList", index: 82 },
                    Pallet { name: "DelegatedStaking", index: 83 },
                    Pallet { name: "StakingRcClient", index: 84 },
                    Pallet { name: "MultiBlockElection", index: 85 },
                    Pallet { name: "MultiBlockElectionVerifier", index: 86 },
                    Pallet { name: "MultiBlockElectionUnsigned", index: 87 },
                    Pallet { name: "MultiBlockElectionSigned", index: 88 },
                    Pallet { name: "Staking", index: 89 },
                    Pallet { name: "Treasury", index: 90 },
                    Pallet { name: "ConvictionVoting", index: 91 },
                    Pallet { name: "Referenda", index: 92 },
                    Pallet { name: "Origins", index: 93 },
                    Pallet { name: "Whitelist", index: 94 },
                    Pallet { name: "Bounties", index: 95 },
                    Pallet { name: "ChildBounties", index: 96 },
                    Pallet { name: "AssetRate", index: 97 },
                    Pallet { name: "AhOps", index: 254 },
                    Pallet { name: "AhMigrator", index: 255 },
                ];
                assert(pallet_entries(r@) =~= pallets_of(*self));
                r
            },
        }
    }
}

} // verus!
