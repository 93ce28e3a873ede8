use api_diff::chains::Chain;
use api_diff::endpoints::{EndpointCategory, EndpointType};
use api_diff::git::GitInfo;

#[test]
fn block_paths_hold_the_block() {
    assert_eq!(EndpointType::Block.path(None, Some(5)), "/blocks/5");
    assert_eq!(EndpointType::BlocksHeader.path(None, Some(1234567)), "/blocks/1234567/header");
    assert_eq!(EndpointType::CoretimeLeases.path(None, Some(0)), "/coretime/leases?at=0");
    assert_eq!(EndpointType::BlocksHead.path(None, Some(9)), "/blocks/head");
}

#[test]
fn optional_block_becomes_at_query() {
    assert_eq!(EndpointType::RuntimeSpec.path(None, Some(42)), "/runtime/spec?at=42");
    assert_eq!(EndpointType::RuntimeSpec.path(None, None), "/runtime/spec");
    assert_eq!(EndpointType::PalletStorage.path(Some("System"), Some(10)), "/pallets/System/storage?at=10");
    assert_eq!(EndpointType::RcPalletEvents.path(Some("Balances"), None), "/rc/pallets/Balances/events");
    assert_eq!(EndpointType::PalletStakingValidators.path(None, Some(u32::MAX)), "/pallets/staking/validators?at=4294967295");
}

#[test]
fn account_and_extrinsic_paths() {
    assert_eq!(
        EndpointType::AccountBalanceInfo.path_with_account(None, Some(7), Some("5Grw")),
        "/accounts/5Grw/balance-info?at=7"
    );
    assert_eq!(EndpointType::AccountStakingInfo.path_with_account(None, None, Some("abc")), "/accounts/abc/staking-info");
    assert_eq!(
        EndpointType::BlockExtrinsicsIdx.path_with_extrinsic(None, Some(100), None, Some(3)),
        "/blocks/100/extrinsics/3"
    );
    assert_eq!(
        EndpointType::BlockExtrinsicsIdxRcBlock.path_with_extrinsic(None, Some(100), None, Some(0)),
        "/blocks/100/extrinsics/0?useRcBlock=true"
    );
    assert_eq!(
        EndpointType::RcBlockExtrinsicsIdx.path_with_extrinsic(None, Some(8), None, Some(12)),
        "/rc/blocks/8/extrinsics/12"
    );
}

#[test]
fn constant_item_path_splits_at_first_slash() {
    assert_eq!(
        EndpointType::PalletConstsConstantItem.path(Some("System/BlockHashCount"), Some(3)),
        "/pallets/System/consts/BlockHashCount?at=3"
    );
    assert_eq!(EndpointType::PalletConstsConstantItem.path(Some("A/B/C"), None), "/pallets/A/consts/B/C");
}

#[test]
fn endpoint_names_parse_in_any_case() {
    assert_eq!(EndpointType::parse("block"), Ok(EndpointType::Block));
    assert_eq!(EndpointType::parse("BLOCKS"), Ok(EndpointType::Block));
    assert_eq!(EndpointType::parse("Consts-Item"), Ok(EndpointType::PalletConstsConstantItem));
    assert_eq!(EndpointType::parse("tx-material"), Ok(EndpointType::TransactionMaterial));
    let err = EndpointType::parse("nope").unwrap_err();
    assert!(err.starts_with("Unknown endpoint 'nope'. Valid options:\n  Account:"));
    assert!(err.ends_with("Node: node-version, node-network"));
}

#[test]
fn endpoint_names_round_trip() {
    let all = [
        EndpointType::AccountForeignAssetBalances,
        EndpointType::BlockExtrinsicsRawRcBlock,
        EndpointType::CoretimeRegions,
        EndpointType::RcPalletStakingValidators,
        EndpointType::NodeNetwork,
    ];
    for e in all {
        assert_eq!(EndpointType::parse(e.name()), Ok(e));
    }
    assert_eq!(EndpointType::AccountForeignAssetBalances.name(), "account-foreign-asset-balance");
}

#[test]
fn categories_drive_iteration() {
    assert_eq!(EndpointType::PalletConsts.category(), EndpointCategory::Pallet);
    assert_eq!(EndpointType::PalletConstsConstantItem.category(), EndpointCategory::Block);
    assert_eq!(EndpointType::AccountStakingPayouts.category(), EndpointCategory::Account);
    assert_eq!(EndpointType::BlocksHead.category(), EndpointCategory::Standalone);
    assert!(EndpointType::PalletErrors.requires_pallet());
    assert!(EndpointType::PalletErrors.requires_block());
    assert!(!EndpointType::RuntimeMetadata.requires_block());
    assert!(EndpointType::AccountBalanceInfo.requires_account());
    assert!(EndpointType::AccountStakingPayouts.is_staking());
    assert!(!EndpointType::AccountBalanceInfo.is_staking());
    assert_eq!(EndpointType::BlockExtrinsics.path_pattern(), "/blocks/{blockId}/extrinsics");
    assert_eq!(EndpointType::PalletConstsConstantItem.path_pattern(), "/pallets/{palletId}/consts/{constantId}");
}

#[test]
fn chains_parse_and_list_pallets() {
    assert_eq!(Chain::parse("DOT"), Ok(Chain::Polkadot));
    assert_eq!(Chain::parse("statemine"), Ok(Chain::AssetHubKusama));
    assert_eq!(Chain::parse("asset-hub-polkadot"), Ok(Chain::AssetHubPolkadot));
    assert_eq!(
        Chain::parse("westend"),
        Err("Unknown chain 'westend'. Valid options: polkadot, kusama, asset-hub-polkadot, asset-hub-kusama".to_string())
    );
    assert_eq!(Chain::all(), vec![Chain::Polkadot, Chain::Kusama, Chain::AssetHubPolkadot, Chain::AssetHubKusama]);
    assert_eq!(Chain::Kusama.name(), "kusama");
    let pallets = Chain::Polkadot.pallets();
    assert_eq!((pallets[0].name, pallets[0].index), ("System", 0));
    for c in Chain::all() {
        assert!(!c.pallets().is_empty());
    }
}

#[test]
fn git_summary_is_one_line() {
    let g = GitInfo {
        branch: "main".to_string(),
        commit_short: "abc1234".to_string(),
        commit_message: "Fix things".to_string(),
    };
    assert_eq!(g.summary(), "abc1234 (main) Fix things");
}

#[test]
fn per_extrinsic_endpoints_look_up_counts() {
    assert_eq!(EndpointType::BlockExtrinsicsIdx.count_lookup(), Some(EndpointType::BlockExtrinsicsRaw));
    assert_eq!(EndpointType::RcBlockExtrinsicsIdx.count_lookup(), Some(EndpointType::RcBlockExtrinsicsRaw));
    let lookup = EndpointType::BlockExtrinsicsIdxRcBlock.count_lookup().unwrap();
    assert_eq!(lookup.path(None, Some(12)), "/blocks/12/extrinsics-raw?useRcBlock=true");
    assert_eq!(EndpointType::Block.count_lookup(), None);
}
