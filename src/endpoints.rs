//! The endpoints under test: their kind, their URL path, and their names.
use vstd::prelude::*;
use crate::text::{decimal, decimal_text, lower_of, lowercase, text_eq};

verus! {

/// How an endpoint is iterated.
#[derive(Clone, Copy, Debug, PartialEq, Eq, Structural)]
pub enum EndpointCategory {
    /// Needs an account address, iterated over blocks.
    Account,
    /// Iterated over blocks only.
    Block,
    /// Iterated over pallets and blocks.
    Pallet,
    /// A single request.
    Standalone,
}

/// One endpoint of the API under test.
#[derive(Clone, Copy, Debug, PartialEq, Eq, Structural)]
pub enum EndpointType {
    AccountBalanceInfo,
    AccountForeignAssetBalances,
    AccountStakingPayouts,
    AccountStakingInfo,
    Block,
    BlocksHead,
    BlocksHeadRcBlock,
    BlocksHeader,
    BlockExtrinsics,
    BlockExtrinsicsRaw,
    BlockExtrinsicsRawRcBlock,
    BlockExtrinsicsIdx,
    BlockExtrinsicsIdxRcBlock,
    RcBlockExtrinsicsRaw,
    RcBlockExtrinsicsIdx,
    BlockParaInclusions,
    CoretimeInfo,
    CoretimeOverview,
    CoretimeLeases,
    CoretimeRegions,
    CoretimeReservations,
    NodeVersion,
    NodeNetwork,
    PalletConsts,
    PalletConstsConstantItem,
    PalletStorage,
    RcPalletStorage,
    PalletDispatchables,
    RcPalletDispatchables,
    PalletErrors,
    RcPalletErrors,
    PalletEvents,
    RcPalletEvents,
    PalletStakingValidators,
    RcPalletStakingValidators,
    RuntimeSpec,
    RuntimeMetadata,
    TransactionMaterial,
}

/// The category of each endpoint.
pub open spec fn category_of(e: EndpointType) -> EndpointCategory {
    match e {
        EndpointType::AccountBalanceInfo => EndpointCategory::Account,
        EndpointType::AccountForeignAssetBalances => EndpointCategory::Account,
        EndpointType::AccountStakingPayouts => EndpointCategory::Account,
        EndpointType::AccountStakingInfo => EndpointCategory::Account,
        EndpointType::Block => EndpointCategory::Block,
        EndpointType::BlocksHead => EndpointCategory::Standalone,
        EndpointType::BlocksHeadRcBlock => EndpointCategory::Standalone,
        EndpointType::BlocksHeader => EndpointCategory::Block,
        EndpointType::BlockExtrinsics => EndpointCategory::Block,
        EndpointType::BlockExtrinsicsRaw => EndpointCategory::Block,
        EndpointType::BlockExtrinsicsRawRcBlock => EndpointCategory::Block,
        EndpointType::BlockExtrinsicsIdx => EndpointCategory::Block,
        EndpointType::BlockExtrinsicsIdxRcBlock => EndpointCategory::Block,
        EndpointType::RcBlockExtrinsicsRaw => EndpointCategory::Block,
        EndpointType::RcBlockExtrinsicsIdx => EndpointCategory::Block,
        EndpointType::BlockParaInclusions => EndpointCategory::Block,
        EndpointType::CoretimeInfo => EndpointCategory::Block,
        EndpointType::CoretimeOverview => EndpointCategory::Block,
        EndpointType::CoretimeLeases => EndpointCategory::Block,
        EndpointType::CoretimeRegions => EndpointCategory::Block,
        EndpointType::CoretimeReservations => EndpointCategory::Block,
        EndpointType::NodeVersion => EndpointCategory::Standalone,
        EndpointType::NodeNetwork => EndpointCategory::Standalone,
        EndpointType::PalletConsts => EndpointCategory::Pallet,
        EndpointType::PalletConstsConstantItem => EndpointCategory::Block,
        EndpointType::PalletStorage => EndpointCategory::Pallet,
        EndpointType::RcPalletStorage => EndpointCategory::Pallet,
        EndpointType::PalletDispatchables => EndpointCategory::Pallet,
        EndpointType::RcPalletDispatchables => EndpointCategory::Pallet,
        EndpointType::PalletErrors => EndpointCategory::Pallet,
        EndpointType::RcPalletErrors => EndpointCategory::Pallet,
        EndpointType::PalletEvents => EndpointCategory::Pallet,
        EndpointType::RcPalletEvents => EndpointCategory::Pallet,
        EndpointType::PalletStakingValidators => EndpointCategory::Block,
        EndpointType::RcPalletStakingValidators => EndpointCategory::Block,
        EndpointType::RuntimeSpec => EndpointCategory::Standalone,
        EndpointType::RuntimeMetadata => EndpointCategory::Standalone,
        EndpointType::TransactionMaterial => EndpointCategory::Standalone,
    }
}

/// The canonical name of each endpoint.
pub open spec fn name_of(e: EndpointType) -> Seq<char> {
    match e {
        EndpointType::AccountBalanceInfo => "account-balance-info"@,
        EndpointType::AccountForeignAssetBalances => "account-foreign-asset-balance"@,
        EndpointType::AccountStakingPayouts => "account-staking-payouts"@,
        EndpointType::AccountStakingInfo => "account-staking-info"@,
        EndpointType::Block => "block"@,
        EndpointType::BlocksHead => "blocks-head"@,
        EndpointType::BlocksHeadRcBlock => "blocks-head-rcblock"@,
        EndpointType::BlocksHeader => "blocks-header"@,
        EndpointType::BlockExtrinsics => "block-extrinsics"@,
        EndpointType::BlockExtrinsicsRaw => "block-extrinsics-raw"@,
        EndpointType::BlockExtrinsicsRawRcBlock => "block-extrinsics-raw-rcblock"@,
        EndpointType::BlockExtrinsicsIdx => "block-extrinsics-idx"@,
        EndpointType::BlockExtrinsicsIdxRcBlock => "block-extrinsics-idx-rcblock"@,
        EndpointType::RcBlockExtrinsicsRaw => "rc-block-extrinsics-raw"@,
        EndpointType::RcBlockExtrinsicsIdx => "rc-block-extrinsics-idx"@,
        EndpointType::BlockParaInclusions => "block-para-inclusions"@,
        EndpointType::CoretimeInfo => "coretime-info"@,
        EndpointType::CoretimeOverview => "coretime-overview"@,
        EndpointType::CoretimeLeases => "coretime-leases"@,
        EndpointType::CoretimeRegions => "coretime-regions"@,
        EndpointType::CoretimeReservations => "coretime-reservations"@,
        EndpointType::NodeVersion => "node-version"@,
        EndpointType::NodeNetwork => "node-network"@,
        EndpointType::PalletConsts => "pallet-consts"@,
        EndpointType::PalletConstsConstantItem => "pallet-consts-item"@,
        EndpointType::PalletStorage => "pallet-storage"@,
        EndpointType::RcPalletStorage => "rc-pallet-storage"@,
        EndpointType::PalletDispatchables => "pallet-dispatchables"@,
        EndpointType::RcPalletDispatchables => "rc-pallet-dispatchables"@,
        EndpointType::PalletErrors => "pallet-errors"@,
        EndpointType::RcPalletErrors => "rc-pallet-errors"@,
        EndpointType::PalletEvents => "pallet-events"@,
        EndpointType::RcPalletEvents => "rc-pallet-events"@,
        EndpointType::PalletStakingValidators => "staking-validators"@,
        EndpointType::RcPalletStakingValidators => "rc-staking-validators"@,
        EndpointType::RuntimeSpec => "runtime-spec"@,
        EndpointType::RuntimeMetadata => "runtime-metadata"@,
        EndpointType::TransactionMaterial => "tx-material"@,
    }
}

/// `s` is one of the other names the endpoint is known by.
pub open spec fn is_alias_of(e: EndpointType, s: Seq<char>) -> bool {
    match e {
        EndpointType::AccountBalanceInfo => s == "accounts-balance-info"@,
        EndpointType::AccountForeignAssetBalances => s == "account-fa-bl"@,
        EndpointType::AccountStakingPayouts => s == "account-sp"@,
        EndpointType::AccountStakingInfo => s == "account-info"@,
        EndpointType::Block => s == "blocks"@,
        EndpointType::BlocksHeadRcBlock => s == "blocks-head-rc"@,
        EndpointType::BlocksHeader => s == "header"@,
        EndpointType::BlockExtrinsics => s == "extrinsics"@,
        EndpointType::BlockExtrinsicsRawRcBlock => s == "block-extrinsics-raw-rc"@,
        EndpointType::BlockExtrinsicsIdxRcBlock => s == "block-extrinsics-idx-rc"@,
        EndpointType::BlockParaInclusions => s == "para-inclusions"@,
        EndpointType::CoretimeRegions => s == "core-reg"@,
        EndpointType::NodeVersion => s == "version"@,
        EndpointType::NodeNetwork => s == "network"@,
        EndpointType::PalletConsts => s == "consts"@,
        EndpointType::PalletConstsConstantItem => s == "consts-item"@,
        EndpointType::PalletStorage => s == "storage"@,
        EndpointType::PalletDispatchables => s == "dispatchables"@,
        EndpointType::PalletErrors => s == "errors"@,
        EndpointType::RuntimeSpec => s == "spec"@,
        EndpointType::RuntimeMetadata => s == "metadata"@,
        EndpointType::TransactionMaterial => s == "transaction-material"@,
        _ => false,
    }
}

/// The URL path pattern of each endpoint, with placeholders.
pub open spec fn pattern_of(e: EndpointType) -> Seq<char> {
    match e {
        EndpointType::AccountBalanceInfo => "/accounts/{accountId}/balance-info"@,
        EndpointType::AccountForeignAssetBalances => "/accounts/{accountId}/foreign-asset-balances"@,
        EndpointType::AccountStakingPayouts => "/accounts/{accountId}/staking-payouts"@,
        EndpointType::AccountStakingInfo => "/accounts/{accountId}/staking-info"@,
        EndpointType::Block => "/blocks/{blockId}"@,
        EndpointType::BlocksHead => "/blocks/head"@,
        EndpointType::BlocksHeadRcBlock => "/blocks/head?useRcBlock=true"@,
        EndpointType::BlocksHeader => "/blocks/{blockId}/header"@,
        EndpointType::BlockExtrinsics => "/blocks/{blockId}/extrinsics"@,
        EndpointType::BlockExtrinsicsRaw => "/blocks/{blockId}/extrinsics-raw"@,
        EndpointType::BlockExtrinsicsRawRcBlock => "/blocks/{blockId}/extrinsics-raw?useRcBlock=true"@,
        EndpointType::BlockExtrinsicsIdx => "/blocks/{blockId}/extrinsics/{index}"@,
        EndpointType::BlockExtrinsicsIdxRcBlock => "/blocks/{blockId}/extrinsics/{index}?useRcBlock=true"@,
        EndpointType::RcBlockExtrinsicsRaw => "/rc/blocks/{blockId}/extrinsics-raw"@,
        EndpointType::RcBlockExtrinsicsIdx => "/rc/blocks/{blockId}/extrinsics/{index}"@,
        EndpointType::BlockParaInclusions => "/blocks/{blockId}/para-inclusions"@,
        EndpointType::CoretimeInfo => "/coretime/info"@,
        EndpointType::CoretimeOverview => "/coretime/overview"@,
        EndpointType::CoretimeLeases => "/coretime/leases"@,
        EndpointType::CoretimeRegions => "/coretime/regions"@,
        EndpointType::CoretimeReservations => "/coretime/reservations"@,
        EndpointType::NodeVersion => "/node/version"@,
        EndpointType::NodeNetwork => "/node/network"@,
        EndpointType::PalletConsts => "/pallets/{palletId}/consts"@,
        EndpointType::PalletConstsConstantItem => "/pallets/{palletId}/consts/{constantId}"@,
        EndpointType::PalletStorage => "/pallets/{palletId}/storage"@,
        EndpointType::RcPalletStorage => "/rc/pallets/{palletId}/storage"@,
        EndpointType::PalletDispatchables => "/pallets/{palletId}/dispatchables"@,
        EndpointType::RcPalletDispatchables => "/rc/pallets/{palletId}/dispatchables"@,
        EndpointType::PalletErrors => "/pallets/{palletId}/errors"@,
        EndpointType::RcPalletErrors => "/rc/pallets/{palletId}/errors"@,
        EndpointType::PalletEvents => "/pallets/{palletId}/events"@,
        EndpointType::RcPalletEvents => "/rc/pallets/{palletId}/events"@,
        EndpointType::PalletStakingValidators => "/pallets/staking/validators"@,
        EndpointType::RcPalletStakingValidators => "/rc/pallets/staking/validators"@,
        EndpointType::RuntimeSpec => "/runtime/spec"@,
        EndpointType::RuntimeMetadata => "/runtime/metadata"@,
        EndpointType::TransactionMaterial => "/transaction/material"@,
    }
}

/// `?at=<block>` when a block is given.
pub open spec fn at_suffix(block: Option<u32>) -> Seq<char> {
    match block {
        Some(b) => "?at="@ + decimal(b as nat),
        None => Seq::empty(),
    }
}

/// Position of the first `c` in `s`, or -1.
pub open spec fn first_index(s: Seq<char>, c: char) -> int
    decreases s.len(),
{
    if s.len() == 0 {
        -1
    } else {
        let p = first_index(s.drop_last(), c);
        if p >= 0 {
            p
        } else if s.last() == c {
            s.len() - 1
        } else {
            -1
        }
    }
}

/// The pallet part of `Pallet/Constant`: what precedes the first `/`.
pub open spec fn const_pallet(s: Seq<char>) -> Seq<char> {
    s.subrange(0, first_index(s, '/'))
}

/// The constant part of `Pallet/Constant`: what follows the first `/`.
pub open spec fn const_name(s: Seq<char>) -> Seq<char> {
    s.subrange(first_index(s, '/') + 1, s.len() as int)
}

pub open spec fn opt_text(s: Option<&str>) -> Option<Seq<char>> {
    match s {
        Some(t) => Some(t@),
        None => None,
    }
}

/// The arguments that the endpoint's path needs are there.
pub open spec fn path_args_ok(
    e: EndpointType,
    pallet: Option<Seq<char>>,
    block: Option<u32>,
    account: Option<Seq<char>>,
    index: Option<u32>,
) -> bool {
    match e {
        EndpointType::AccountBalanceInfo => account is Some,
        EndpointType::AccountForeignAssetBalances => account is Some,
        EndpointType::AccountStakingPayouts => account is Some,
        EndpointType::AccountStakingInfo => account is Some,
        EndpointType::Block => block is Some,
        EndpointType::BlocksHead => true,
        EndpointType::BlocksHeadRcBlock => true,
        EndpointType::BlocksHeader => block is Some,
        EndpointType::BlockExtrinsics => block is Some,
        EndpointType::BlockExtrinsicsRaw => block is Some,
        EndpointType::BlockExtrinsicsRawRcBlock => block is Some,
        EndpointType::BlockExtrinsicsIdx => block is Some && index is Some,
        EndpointType::BlockExtrinsicsIdxRcBlock => block is Some && index is Some,
        EndpointType::RcBlockExtrinsicsRaw => block is Some,
        EndpointType::RcBlockExtrinsicsIdx => block is Some && index is Some,
        EndpointType::BlockParaInclusions => block is Some,
        EndpointType::CoretimeInfo => block is Some,
        EndpointType::CoretimeOverview => block is Some,
        EndpointType::CoretimeLeases => block is Some,
        EndpointType::CoretimeRegions => block is Some,
        EndpointType::CoretimeReservations => block is Some,
        EndpointType::NodeVersion => true,
        EndpointType::NodeNetwork => true,
        EndpointType::PalletConsts => pallet is Some,
        EndpointType::PalletConstsConstantItem => pallet is Some && first_index(pallet->0, '/') >= 0,
        EndpointType::PalletStorage => pallet is Some,
        EndpointType::RcPalletStorage => pallet is Some,
        EndpointType::PalletDispatchables => pallet is Some,
        EndpointType::RcPalletDispatchables => pallet is Some,
        EndpointType::PalletErrors => pallet is Some,
        EndpointType::RcPalletErrors => pallet is Some,
        EndpointType::PalletEvents => pallet is Some,
        EndpointType::RcPalletEvents => pallet is Some,
        EndpointType::PalletStakingValidators => true,
        EndpointType::RcPalletStakingValidators => true,
        EndpointType::RuntimeSpec => true,
        EndpointType::RuntimeMetadata => true,
        EndpointType::TransactionMaterial => true,
    }
}

/// The URL path of the endpoint for the given arguments.
pub open spec fn path_of(
    e: EndpointType,
    pallet: Option<Seq<char>>,
    block: Option<u32>,
    account: Option<Seq<char>>,
    index: Option<u32>,
) -> Seq<char> {
    match e {
        EndpointType::AccountBalanceInfo => "/accounts/"@ + account->0 + "/balance-info"@ + at_suffix(block),
        EndpointType::AccountForeignAssetBalances => "/accounts/"@ + account->0 + "/foreign-asset-balances"@ + at_suffix(block),
        EndpointType::AccountStakingPayouts => "/accounts/"@ + account->0 + "/staking-payouts"@ + at_suffix(block),
        EndpointType::AccountStakingInfo => "/accounts/"@ + account->0 + "/staking-info"@ + at_suffix(block),
        EndpointType::Block => "/blocks/"@ + decimal(block->0 as nat),
        EndpointType::BlocksHead => "/blocks/head"@,
        EndpointType::BlocksHeadRcBlock => "/blocks/head?useRcBlock=true"@,
        EndpointType::BlocksHeader => "/blocks/"@ + decimal(block->0 as nat) + "/header"@,
        EndpointType::BlockExtrinsics => "/blocks/"@ + decimal(block->0 as nat) + "/extrinsics-info"@,
        EndpointType::BlockExtrinsicsRaw => "/blocks/"@ + decimal(block->0 as nat) + "/extrinsics-raw"@,
        EndpointType::BlockExtrinsicsRawRcBlock => "/blocks/"@ + decimal(block->0 as nat) + "/extrinsics-raw?useRcBlock=true"@,
        EndpointType::BlockExtrinsicsIdx => "/blocks/"@ + decimal(block->0 as nat) + "/extrinsics/"@ + decimal(index->0 as nat),
        EndpointType::BlockExtrinsicsIdxRcBlock => "/blocks/"@ + decimal(block->0 as nat) + "/extrinsics/"@ + decimal(index->0 as nat) + "?useRcBlock=true"@,
        EndpointType::RcBlockExtrinsicsRaw => "/rc/blocks/"@ + decimal(block->0 as nat) + "/extrinsics-raw"@,
        EndpointType::RcBlockExtrinsicsIdx => "/rc/blocks/"@ + decimal(block->0 as nat) + "/extrinsics/"@ + decimal(index->0 as nat),
        EndpointType::BlockParaInclusions => "/blocks/"@ + decimal(block->0 as nat) + "/para-inclusions"@,
        EndpointType::CoretimeInfo => "/coretime/info?at="@ + decimal(block->0 as nat),
        EndpointType::CoretimeOverview => "/coretime/overview?at="@ + decimal(block->0 as nat),
        EndpointType::CoretimeLeases => "/coretime/leases?at="@ + decimal(block->0 as nat),
        EndpointType::CoretimeRegions => "/coretime/regions?at="@ + decimal(block->0 as nat),
        EndpointType::CoretimeReservations => "/coretime/reservations?at="@ + decimal(block->0 as nat),
        EndpointType::NodeVersion => "/node/version"@,
        EndpointType::NodeNetwork => "/node/network"@,
        EndpointType::PalletConsts => "/pallets/"@ + pallet->0 + "/consts"@ + at_suffix(block),
        EndpointType::PalletConstsConstantItem => "/pallets/"@ + const_pallet(pallet->0) + "/consts/"@ + const_name(pallet->0) + at_suffix(block),
        EndpointType::PalletStorage => "/pallets/"@ + pallet->0 + "/storage"@ + at_suffix(block),
        EndpointType::RcPalletStorage => "/rc/pallets/"@ + pallet->0 + "/storage"@ + at_suffix(block),
        EndpointType::PalletDispatchables => "/pallets/"@ + pallet->0 + "/dispatchables"@ + at_suffix(block),
        EndpointType::RcPalletDispatchables => "/rc/pallets/"@ + pallet->0 + "/dispatchables"@ + at_suffix(block),
        EndpointType::PalletErrors => "/pallets/"@ + pallet->0 + "/errors"@ + at_suffix(block),
        EndpointType::RcPalletErrors => "/rc/pallets/"@ + pallet->0 + "/errors"@ + at_suffix(block),
        EndpointType::PalletEvents => "/pallets/"@ + pallet->0 + "/events"@ + at_suffix(block),
        EndpointType::RcPalletEvents => "/rc/pallets/"@ + pallet->0 + "/events"@ + at_suffix(block),
        EndpointType::PalletStakingValidators => "/pallets/staking/validators"@ + at_suffix(block),
        EndpointType::RcPalletStakingValidators => "/rc/pallets/staking/validators"@ + at_suffix(block),
        EndpointType::RuntimeSpec => "/runtime/spec"@ + at_suffix(block),
        EndpointType::RuntimeMetadata => "/runtime/metadata"@ + at_suffix(block),
        EndpointType::TransactionMaterial => "/transaction/material"@ + at_suffix(block),
    }
}

/// Appends `?at=<block>` when a block is given.
fn append_at(s: &mut String, block: Option<u32>)
    ensures
        final(s)@ == old(s)@ + at_suffix(block),
{
    match block {
        Some(b) => {
            let ghost before = s@;
            s.append("?at=");
            let d = decimal_text(b as u64);
            s.append(d.as_str());
            assert(s@ =~= before + at_suffix(block));
        },
        None => {
            assert(s@ =~= s@ + at_suffix(block));
        },
    }
}

/// Appends the decimal text of `n`.
fn append_number(s: &mut String, n: u32)
    ensures
        final(s)@ == old(s)@ + decimal(n as nat),
{
    let d = decimal_text(n as u64);
    s.append(d.as_str());
}

/// Finds the first `c` in `s`, as `first_index` describes.
fn find_char(s: &str, c: char) -> (r: Option<usize>)
    ensures
        match r {
            Some(i) => first_index(s@, c) == i && i < s@.len(),
            None => first_index(s@, c) == -1,
        },
{
    let n = s.unicode_len();
    let mut i: usize = 0;
    proof {
        lemma_first_index(s@, c);
    }
    while i < n
        invariant
            i <= n,
            n == s@.len(),
            -1 <= first_index(s@, c) < s@.len(),
            first_index(s@, c) >= 0 ==> s@[first_index(s@, c)] == c,
            first_index(s@, c) >= 0 ==> forall|j: int| 0 <= j < first_index(s@, c) ==> s@[j] != c,
            first_index(s@, c) < 0 ==> forall|j: int| 0 <= j < s@.len() ==> s@[j] != c,
            forall|j: int| 0 <= j < i ==> s@[j] != c,
        decreases n - i,
    {
        if s.get_char(i) == c {
            return Some(i);
        }
        i = i + 1;
    }
    None
}

proof fn lemma_first_index(s: Seq<char>, c: char)
    ensures
        -1 <= first_index(s, c) < s.len(),
        first_index(s, c) >= 0 ==> s[first_index(s, c)] == c,
        first_index(s, c) >= 0 ==> forall|i: int| 0 <= i < first_index(s, c) ==> s[i] != c,
        first_index(s, c) < 0 ==> forall|i: int| 0 <= i < s.len() ==> s[i] != c,
    decreases s.len(),
{
    if s.len() > 0 {
        lemma_first_index(s.drop_last(), c);
        assert(forall|i: int| 0 <= i < s.len() - 1 ==> s.drop_last()[i] == s[i]);
    }
}

impl EndpointType {
    /// The category of this endpoint.
    pub fn category(&self) -> (r: EndpointCategory)
        ensures
            r == category_of(*self),
    {
        match self {
            EndpointType::AccountBalanceInfo => EndpointCategory::Account,
            EndpointType::AccountForeignAssetBalances => EndpointCategory::Account,
            EndpointType::AccountStakingPayouts => EndpointCategory::Account,
            EndpointType::AccountStakingInfo => EndpointCategory::Account,
            EndpointType::Block => EndpointCategory::Block,
            EndpointType::BlocksHead => EndpointCategory::Standalone,
            EndpointType::BlocksHeadRcBlock => EndpointCategory::Standalone,
            EndpointType::BlocksHeader => EndpointCategory::Block,
            EndpointType::BlockExtrinsics => EndpointCategory::Block,
            EndpointType::BlockExtrinsicsRaw => EndpointCategory::Block,
            EndpointType::BlockExtrinsicsRawRcBlock => EndpointCategory::Block,
            EndpointType::BlockExtrinsicsIdx => EndpointCategory::Block,
            EndpointType::BlockExtrinsicsIdxRcBlock => EndpointCategory::Block,
            EndpointType::RcBlockExtrinsicsRaw => EndpointCategory::Block,
            EndpointType::RcBlockExtrinsicsIdx => EndpointCategory::Block,
            EndpointType::BlockParaInclusions => EndpointCategory::Block,
            EndpointType::CoretimeInfo => EndpointCategory::Block,
            EndpointType::CoretimeOverview => EndpointCategory::Block,
            EndpointType::CoretimeLeases => EndpointCategory::Block,
            EndpointType::CoretimeRegions => EndpointCategory::Block,
            EndpointType::CoretimeReservations => EndpointCategory::Block,
            EndpointType::NodeVersion => EndpointCategory::Standalone,
            EndpointType::NodeNetwork => EndpointCategory::Standalone,
            EndpointType::PalletConsts => EndpointCategory::Pallet,
            EndpointType::PalletConstsConstantItem => EndpointCategory::Block,
            EndpointType::PalletStorage => EndpointCategory::Pallet,
            EndpointType::RcPalletStorage => EndpointCategory::Pallet,
            EndpointType::PalletDispatchables => EndpointCategory::Pallet,
            EndpointType::RcPalletDispatchables => EndpointCategory::Pallet,
            EndpointType::PalletErrors => EndpointCategory::Pallet,
            EndpointType::RcPalletErrors => EndpointCategory::Pallet,
            EndpointType::PalletEvents => EndpointCategory::Pallet,
            EndpointType::RcPalletEvents => EndpointCategory::Pallet,
            EndpointType::PalletStakingValidators => EndpointCategory::Block,
            EndpointType::RcPalletStakingValidators => EndpointCategory::Block,
            EndpointType::RuntimeSpec => EndpointCategory::Standalone,
            EndpointType::RuntimeMetadata => EndpointCategory::Standalone,
            EndpointType::TransactionMaterial => EndpointCategory::Standalone,
        }
    }

    /// The URL path for this endpoint.
    pub fn path(&self, pallet: Option<&str>, block: Option<u32>) -> (r: String)
        requires
            path_args_ok(*self, opt_text(pallet), block, None, None),
        ensures
            r@ == path_of(*self, opt_text(pallet), block, None, None),
    {
        self.path_with_account(pallet, block, None)
    }

    /// The URL path for this endpoint, with an account address.
    pub fn path_with_account(&self, pallet: Option<&str>, block: Option<u32>, account: Option<&str>) -> (r:
        String)
        requires
            path_args_ok(*self, opt_text(pallet), block, opt_text(account), None),
        ensures
            r@ == path_of(*self, opt_text(pallet), block, opt_text(account), None),
    {
        self.path_with_extrinsic(pallet, block, account, None)
    }

    /// The URL path for this endpoint, with an account address and an
    /// extrinsic index. Each endpoint needs the arguments its path holds (see
    /// `path_args_ok`); a block, where the path does not hold one, becomes
    /// `?at=<block>` on the endpoints that take it.
    pub fn path_with_extrinsic(
        &self,
        pallet: Option<&str>,
        block: Option<u32>,
        account: Option<&str>,
        extrinsic_index: Option<u32>,
    ) -> (r: String)
        requires
            path_args_ok(*self, opt_text(pallet), block, opt_text(account), extrinsic_index),
        ensures
            r@ == path_of(*self, opt_text(pallet), block, opt_text(account), extrinsic_index),
    {
        match self {
            EndpointType::AccountBalanceInfo => {
                let mut s = String::new();
                s.append("/accounts/");
                s.append(account.unwrap());
                s.append("/balance-info");
                append_at(&mut s, block);
                proof {
                    assert(s@ =~= path_of(*self, opt_text(pallet), block, opt_text(account), extrinsic_index));
                }
                s
            },
            EndpointType::AccountForeignAssetBalances => {
                let mut s = String::new();
                s.append("/accounts/");
                s.append(account.unwrap());
                s.append("/foreign-asset-balances");
                append_at(&mut s, block);
                proof {
                    assert(s@ =~= path_of(*self, opt_text(pallet), block, opt_text(account), extrinsic_index));
                }
                s
            },
            EndpointType::AccountStakingPayouts => {
                let mut s = String::new();
                s.append("/accounts/");
                s.append(account.unwrap());
                s.append("/staking-payouts");
                append_at(&mut s, block);
                proof {
                    assert(s@ =~= path_of(*self, opt_text(pallet), block, opt_text(account), extrinsic_index));
                }
                s
            },
            EndpointType::AccountStakingInfo => {
                let mut s = String::new();
                s.append("/accounts/");
                s.append(account.unwrap());
                s.append("/staking-info");
                append_at(&mut s, block);
                proof {
                    assert(s@ =~= path_of(*self, opt_text(pallet), block, opt_text(account), extrinsic_index));
                }
                s
            },
            EndpointType::Block => {
                let mut s = String::new();
                s.append("/blocks/");
                append_number(&mut s, block.unwrap());
                proof {
                    assert(s@ =~= path_of(*self, opt_text(pallet), block, opt_text(account), extrinsic_index));
                }
                s
            },
            EndpointType::BlocksHead => {
                let mut s = String::new();
                s.append("/blocks/head");
                proof {
                    assert(s@ =~= path_of(*self, opt_text(pallet), block, opt_text(account), extrinsic_index));
                }
                s
            },
            EndpointType::BlocksHeadRcBlock => {
                let mut s = String::new();
                s.append("/blocks/head?useRcBlock=true");
                proof {
                    assert(s@ =~= path_of(*self, opt_text(pallet), block, opt_text(account), extrinsic_index));
                }
                s
            },
            EndpointType::BlocksHeader => {
                let mut s = String::new();
                s.append("/blocks/");
                append_number(&mut s, block.unwrap());
                s.append("/header");
                proof {
                    assert(s@ =~= path_of(*self, opt_text(pallet), block, opt_text(account), extrinsic_index));
                }
                s
            },
            EndpointType::BlockExtrinsics => {
                let mut s = String::new();
                s.append("/blocks/");
                append_number(&mut s, block.unwrap());
                s.append("/extrinsics-info");
                proof {
                    assert(s@ =~= path_of(*self, opt_text(pallet), block, opt_text(account), extrinsic_index));
                }
                s
            },
            EndpointType::BlockExtrinsicsRaw => {
                let mut s = String::new();
                s.append("/blocks/");
                append_number(&mut s, block.unwrap());
                s.append("/extrinsics-raw");
                proof {
                    assert(s@ =~= path_of(*self, opt_text(pallet), block, opt_text(account), extrinsic_index));
                }
                s
            },
            EndpointType::BlockExtrinsicsRawRcBlock => {
                let mut s = String::new();
                s.append("/blocks/");
                append_number(&mut s, block.unwrap());
                s.append("/extrinsics-raw?useRcBlock=true");
                proof {
                    assert(s@ =~= path_of(*self, opt_text(pallet), block, opt_text(account), extrinsic_index));
                }
                s
            },
            EndpointType::BlockExtrinsicsIdx => {
                let mut s = String::new();
                s.append("/blocks/");
                append_number(&mut s, block.unwrap());
                s.append("/extrinsics/");
                append_number(&mut s, extrinsic_index.unwrap());
                proof {
                    assert(s@ =~= path_of(*self, opt_text(pallet), block, opt_text(account), extrinsic_index));
                }
                s
            },
            EndpointType::BlockExtrinsicsIdxRcBlock => {
                let mut s = String::new();
                s.append("/blocks/");
                append_number(&mut s, block.unwrap());
                s.append("/extrinsics/");
                append_number(&mut s, extrinsic_index.unwrap());
                s.append("?useRcBlock=true");
                proof {
                    assert(s@ =~= path_of(*self, opt_text(pallet), block, opt_text(account), extrinsic_index));
                }
                s
            },
            EndpointType::RcBlockExtrinsicsRaw => {
                let mut s = String::new();
                s.append("/rc/blocks/");
                append_number(&mut s, block.unwrap());
                s.append("/extrinsics-raw");
                proof {
                    assert(s@ =~= path_of(*self, opt_text(pallet), block, opt_text(account), extrinsic_index));
                }
                s
            },
            EndpointType::RcBlockExtrinsicsIdx => {
                let mut s = String::new();
                s.append("/rc/blocks/");
                append_number(&mut s, block.unwrap());
                s.append("/extrinsics/");
                append_number(&mut s, extrinsic_index.unwrap());
                proof {
                    assert(s@ =~= path_of(*self, opt_text(pallet), block, opt_text(account), extrinsic_index));
                }
                s
            },
            EndpointType::BlockParaInclusions => {
                let mut s = String::new();
                s.append("/blocks/");
                append_number(&mut s, block.unwrap());
                s.append("/para-inclusions");
                proof {
                    assert(s@ =~= path_of(*self, opt_text(pallet), block, opt_text(account), extrinsic_index));
                }
                s
            },
            EndpointType::CoretimeInfo => {
                let mut s = String::new();
                s.append("/coretime/info?at=");
                append_number(&mut s, block.unwrap());
                proof {
                    assert(s@ =~= path_of(*self, opt_text(pallet), block, opt_text(account), extrinsic_index));
                }
                s
            },
            EndpointType::CoretimeOverview => {
                let mut s = String::new();
                s.append("/coretime/overview?at=");
                append_number(&mut s, block.unwrap());
                proof {
                    assert(s@ =~= path_of(*self, opt_text(pallet), block, opt_text(account), extrinsic_index));
                }
                s
            },
            EndpointType::CoretimeLeases => {
                let mut s = String::new();
                s.append("/coretime/leases?at=");
                append_number(&mut s, block.unwrap());
                proof {
                    assert(s@ =~= path_of(*self, opt_text(pallet), block, opt_text(account), extrinsic_index));
                }
                s
            },
            EndpointType::CoretimeRegions => {
                let mut s = String::new();
                s.append("/coretime/regions?at=");
                append_number(&mut s, block.unwrap());
                proof {
                    assert(s@ =~= path_of(*self, opt_text(pallet), block, opt_text(account), extrinsic_index));
                }
                s
            },
            EndpointType::CoretimeReservations => {
                let mut s = String::new();
                s.append("/coretime/reservations?at=");
                append_number(&mut s, block.unwrap());
                proof {
                    assert(s@ =~= path_of(*self, opt_text(pallet), block, opt_text(account), extrinsic_index));
                }
                s
            },
            EndpointType::NodeVersion => {
                let mut s = String::new();
                s.append("/node/version");
                proof {
                    assert(s@ =~= path_of(*self, opt_text(pallet), block, opt_text(account), extrinsic_index));
                }
                s
            },
            EndpointType::NodeNetwork => {
                let mut s = String::new();
                s.append("/node/network");
                proof {
                    assert(s@ =~= path_of(*self, opt_text(pallet), block, opt_text(account), extrinsic_index));
                }
                s
            },
            EndpointType::PalletConsts => {
                let mut s = String::new();
                s.append("/pallets/");
                s.append(pallet.unwrap());
                s.append("/consts");
                append_at(&mut s, block);
                proof {
                    assert(s@ =~= path_of(*self, opt_text(pallet), block, opt_text(account), extrinsic_index));
                }
                s
            },
            EndpointType::PalletConstsConstantItem => {
                let full = pallet.unwrap();
                let n = full.unicode_len();
                let k = find_char(full, '/').unwrap();
                let pallet_name = full.substring_char(0, k);
                let constant_name = full.substring_char(k + 1, n);
                let mut s = String::new();
                s.append("/pallets/");
                s.append(pallet_name);
                s.append("/consts/");
                s.append(constant_name);
                append_at(&mut s, block);
                proof {
                    assert(s@ =~= path_of(*self, opt_text(pallet), block, opt_text(account), extrinsic_index));
                }
                s
            },
            EndpointType::PalletStorage => {
                let mut s = String::new();
                s.append("/pallets/");
                s.append(pallet.unwrap());
                s.append("/storage");
                append_at(&mut s, block);
                proof {
                    assert(s@ =~= path_of(*self, opt_text(pallet), block, opt_text(account), extrinsic_index));
                }
                s
            },
            EndpointType::RcPalletStorage => {
                let mut s = String::new();
                s.append("/rc/pallets/");
                s.append(pallet.unwrap());
                s.append("/storage");
                append_at(&mut s, block);
                proof {
                    assert(s@ =~= path_of(*self, opt_text(pallet), block, opt_text(account), extrinsic_index));
                }
                s
            },
            EndpointType::PalletDispatchables => {
                let mut s = String::new();
                s.append("/pallets/");
                s.append(pallet.unwrap());
                s.append("/dispatchables");
                append_at(&mut s, block);
                proof {
                    assert(s@ =~= path_of(*self, opt_text(pallet), block, opt_text(account), extrinsic_index));
                }
                s
            },
            EndpointType::RcPalletDispatchables => {
                let mut s = String::new();
                s.append("/rc/pallets/");
                s.append(pallet.unwrap());
                s.append("/dispatchables");
                append_at(&mut s, block);
                proof {
                    assert(s@ =~= path_of(*self, opt_text(pallet), block, opt_text(account), extrinsic_index));
                }
                s
            },
            EndpointType::PalletErrors => {
                let mut s = String::new();
                s.append("/pallets/");
                s.append(pallet.unwrap());
                s.append("/errors");
                append_at(&mut s, block);
                proof {
                    assert(s@ =~= path_of(*self, opt_text(pallet), block, opt_text(account), extrinsic_index));
                }
                s
            },
            EndpointType::RcPalletErrors => {
                let mut s = String::new();
                s.append("/rc/pallets/");
                s.append(pallet.unwrap());
                s.append("/errors");
                append_at(&mut s, block);
                proof {
                    assert(s@ =~= path_of(*self, opt_text(pallet), block, opt_text(account), extrinsic_index));
                }
                s
            },
            EndpointType::PalletEvents => {
                let mut s = String::new();
                s.append("/pallets/");
                s.append(pallet.unwrap());
                s.append("/events");
                append_at(&mut s, block);
                proof {
                    assert(s@ =~= path_of(*self, opt_text(pallet), block, opt_text(account), extrinsic_index));
                }
                s
            },
            EndpointType::RcPalletEvents => {
                let mut s = String::new();
                s.append("/rc/pallets/");
                s.append(pallet.unwrap());
                s.append("/events");
                append_at(&mut s, block);
                proof {
                    assert(s@ =~= path_of(*self, opt_text(pallet), block, opt_text(account), extrinsic_index));
                }
                s
            },
            EndpointType::PalletStakingValidators => {
                let mut s = String::new();
                s.append("/pallets/staking/validators");
                append_at(&mut s, block);
                proof {
                    assert(s@ =~= path_of(*self, opt_text(pallet), block, opt_text(account), extrinsic_index));
                }
                s
            },
            EndpointType::RcPalletStakingValidators => {
                let mut s = String::new();
                s.append("/rc/pallets/staking/validators");
                append_at(&mut s, block);
                proof {
                    assert(s@ =~= path_of(*self, opt_text(pallet), block, opt_text(account), extrinsic_index));
                }
                s
            },
            EndpointType::RuntimeSpec => {
                let mut s = String::new();
                s.append("/runtime/spec");
                append_at(&mut s, block);
                proof {
                    assert(s@ =~= path_of(*self, opt_text(pallet), block, opt_text(account), extrinsic_index));
                }
                s
            },
            EndpointType::RuntimeMetadata => {
                let mut s = String::new();
                s.append("/runtime/metadata");
                append_at(&mut s, block);
                proof {
                    assert(s@ =~= path_of(*self, opt_text(pallet), block, opt_text(account), extrinsic_index));
                }
                s
            },
            EndpointType::TransactionMaterial => {
                let mut s = String::new();
                s.append("/transaction/material");
                append_at(&mut s, block);
                proof {
                    assert(s@ =~= path_of(*self, opt_text(pallet), block, opt_text(account), extrinsic_index));
                }
                s
            },
        }
    }

    /// The URL path pattern of this endpoint, with placeholders.
    pub fn path_pattern(&self) -> (r: &'static str)
        ensures
            r@ == pattern_of(*self),
    {
        match self {
            EndpointType::AccountBalanceInfo => "/accounts/{accountId}/balance-info",
            EndpointType::AccountForeignAssetBalances => "/accounts/{accountId}/foreign-asset-balances",
            EndpointType::AccountStakingPayouts => "/accounts/{accountId}/staking-payouts",
            EndpointType::AccountStakingInfo => "/accounts/{accountId}/staking-info",
            EndpointType::Block => "/blocks/{blockId}",
            EndpointType::BlocksHead => "/blocks/head",
            EndpointType::BlocksHeadRcBlock => "/blocks/head?useRcBlock=true",
            EndpointType::BlocksHeader => "/blocks/{blockId}/header",
            EndpointType::BlockExtrinsics => "/blocks/{blockId}/extrinsics",
            EndpointType::BlockExtrinsicsRaw => "/blocks/{blockId}/extrinsics-raw",
            EndpointType::BlockExtrinsicsRawRcBlock => "/blocks/{blockId}/extrinsics-raw?useRcBlock=true",
            EndpointType::BlockExtrinsicsIdx => "/blocks/{blockId}/extrinsics/{index}",
            EndpointType::BlockExtrinsicsIdxRcBlock => "/blocks/{blockId}/extrinsics/{index}?useRcBlock=true",
            EndpointType::RcBlockExtrinsicsRaw => "/rc/blocks/{blockId}/extrinsics-raw",
            EndpointType::RcBlockExtrinsicsIdx => "/rc/blocks/{blockId}/extrinsics/{index}",
            EndpointType::BlockParaInclusions => "/blocks/{blockId}/para-inclusions",
            EndpointType::CoretimeInfo => "/coretime/info",
            EndpointType::CoretimeOverview => "/coretime/overview",
            EndpointType::CoretimeLeases => "/coretime/leases",
            EndpointType::CoretimeRegions => "/coretime/regions",
            EndpointType::CoretimeReservations => "/coretime/reservations",
            EndpointType::NodeVersion => "/node/version",
            EndpointType::NodeNetwork => "/node/network",
            EndpointType::PalletConsts => "/pallets/{palletId}/consts",
            EndpointType::PalletConstsConstantItem => "/pallets/{palletId}/consts/{constantId}",
            EndpointType::PalletStorage => "/pallets/{palletId}/storage",
            EndpointType::RcPalletStorage => "/rc/pallets/{palletId}/storage",
            EndpointType::PalletDispatchables => "/pallets/{palletId}/dispatchables",
            EndpointType::RcPalletDispatchables => "/rc/pallets/{palletId}/dispatchables",
            EndpointType::PalletErrors => "/pallets/{palletId}/errors",
            EndpointType::RcPalletErrors => "/rc/pallets/{palletId}/errors",
            EndpointType::PalletEvents => "/pallets/{palletId}/events",
            EndpointType::RcPalletEvents => "/rc/pallets/{palletId}/events",
            EndpointType::PalletStakingValidators => "/pallets/staking/validators",
            EndpointType::RcPalletStakingValidators => "/rc/pallets/staking/validators",
            EndpointType::RuntimeSpec => "/runtime/spec",
            EndpointType::RuntimeMetadata => "/runtime/metadata",
            EndpointType::TransactionMaterial => "/transaction/material",
        }
    }

    /// Whether the endpoint is iterated over pallets.
    pub fn requires_pallet(&self) -> (r: bool)
        ensures
            r == (category_of(*self) == EndpointCategory::Pallet),
    {
        self.category() == EndpointCategory::Pallet
    }

    /// Whether the endpoint is iterated over blocks.
    pub fn requires_block(&self) -> (r: bool)
        ensures
            r == (category_of(*self) != EndpointCategory::Standalone),
    {
        match self.category() {
            EndpointCategory::Pallet | EndpointCategory::Block | EndpointCategory::Account => true,
            EndpointCategory::Standalone => false,
        }
    }

    /// Whether the endpoint needs an account address.
    pub fn requires_account(&self) -> (r: bool)
        ensures
            r == (category_of(*self) == EndpointCategory::Account),
    {
        self.category() == EndpointCategory::Account
    }

    /// Whether the endpoint is a staking account endpoint (it needs stash
    /// accounts).
    pub fn is_staking(&self) -> (r: bool)
        ensures
            r == (*self == EndpointType::AccountStakingPayouts || *self
                == EndpointType::AccountStakingInfo),
    {
        match self {
            EndpointType::AccountStakingPayouts | EndpointType::AccountStakingInfo => true,
            _ => false,
        }
    }

    /// For the per-extrinsic endpoints, the endpoint that lists a block's
    /// extrinsics (whose length gives the indices to compare).
    pub fn count_lookup(&self) -> (r: Option<EndpointType>)
        ensures
            r == match *self {
                EndpointType::BlockExtrinsicsIdx => Some(EndpointType::BlockExtrinsicsRaw),
                EndpointType::BlockExtrinsicsIdxRcBlock => Some(EndpointType::BlockExtrinsicsRawRcBlock),
                EndpointType::RcBlockExtrinsicsIdx => Some(EndpointType::RcBlockExtrinsicsRaw),
                _ => None,
            },
    {
        match self {
            EndpointType::BlockExtrinsicsIdx => Some(EndpointType::BlockExtrinsicsRaw),
            EndpointType::BlockExtrinsicsIdxRcBlock => Some(EndpointType::BlockExtrinsicsRawRcBlock),
            EndpointType::RcBlockExtrinsicsIdx => Some(EndpointType::RcBlockExtrinsicsRaw),
            _ => None,
        }
    }

    /// The canonical name of this endpoint.
    pub fn name(&self) -> (r: &'static str)
        ensures
            r@ == name_of(*self),
    {
        match self {
            EndpointType::AccountBalanceInfo => "account-balance-info",
            EndpointType::AccountForeignAssetBalances => "account-foreign-asset-balance",
            EndpointType::AccountStakingPayouts => "account-staking-payouts",
            EndpointType::AccountStakingInfo => "account-staking-info",
            EndpointType::Block => "block",
            EndpointType::BlocksHead => "blocks-head",
            EndpointType::BlocksHeadRcBlock => "blocks-head-rcblock",
            EndpointType::BlocksHeader => "blocks-header",
            EndpointType::BlockExtrinsics => "block-extrinsics",
            EndpointType::BlockExtrinsicsRaw => "block-extrinsics-raw",
            EndpointType::BlockExtrinsicsRawRcBlock => "block-extrinsics-raw-rcblock",
            EndpointType::BlockExtrinsicsIdx => "block-extrinsics-idx",
            EndpointType::BlockExtrinsicsIdxRcBlock => "block-extrinsics-idx-rcblock",
            EndpointType::RcBlockExtrinsicsRaw => "rc-block-extrinsics-raw",
            EndpointType::RcBlockExtrinsicsIdx => "rc-block-extrinsics-idx",
            EndpointType::BlockParaInclusions => "block-para-inclusions",
            EndpointType::CoretimeInfo => "coretime-info",
            EndpointType::CoretimeOverview => "coretime-overview",
            EndpointType::CoretimeLeases => "coretime-leases",
            EndpointType::CoretimeRegions => "coretime-regions",
            EndpointType::CoretimeReservations => "coretime-reservations",
            EndpointType::NodeVersion => "node-version",
            EndpointType::NodeNetwork => "node-network",
            EndpointType::PalletConsts => "pallet-consts",
            EndpointType::PalletConstsConstantItem => "pallet-consts-item",
            EndpointType::PalletStorage => "pallet-storage",
            EndpointType::RcPalletStorage => "rc-pallet-storage",
            EndpointType::PalletDispatchables => "pallet-dispatchables",
            EndpointType::RcPalletDispatchables => "rc-pallet-dispatchables",
            EndpointType::PalletErrors => "pallet-errors",
            EndpointType::RcPalletErrors => "rc-pallet-errors",
            EndpointType::PalletEvents => "pallet-events",
            EndpointType::RcPalletEvents => "rc-pallet-events",
            EndpointType::PalletStakingValidators => "staking-validators",
            EndpointType::RcPalletStakingValidators => "rc-staking-validators",
            EndpointType::RuntimeSpec => "runtime-spec",
            EndpointType::RuntimeMetadata => "runtime-metadata",
            EndpointType::TransactionMaterial => "tx-material",
        }
    }

    /// Reads an endpoint name, canonical or alias, regardless of case.
    pub fn parse(s: &str) -> (r: Result<EndpointType, String>)
        ensures
            match r {
                Ok(e) => name_of(e) == lower_of(s@) || is_alias_of(e, lower_of(s@)),
                Err(msg) => {
                    &&& forall|e: EndpointType|
                        name_of(e) != lower_of(s@) && !is_alias_of(e, lower_of(s@))
                    &&& msg@ == "Unknown endpoint '"@ + s@ + UNKNOWN_ENDPOINT_HELP@
                },
            },
    {
        let lower = lowercase(s);
        let l = lower.as_str();
        if text_eq(l, "account-balance-info") || text_eq(l, "accounts-balance-info") {
            return Ok(EndpointType::AccountBalanceInfo);
        }
        if text_eq(l, "account-foreign-asset-balance") || text_eq(l, "account-fa-bl") {
            return Ok(EndpointType::AccountForeignAssetBalances);
        }
        if text_eq(l, "account-staking-payouts") || text_eq(l, "account-sp") {
            return Ok(EndpointType::AccountStakingPayouts);
        }
        if text_eq(l, "account-staking-info") || text_eq(l, "account-info") {
            return Ok(EndpointType::AccountStakingInfo);
        }
        if text_eq(l, "block") || text_eq(l, "blocks") {
            return Ok(EndpointType::Block);
        }
        if text_eq(l, "blocks-head") {
            return Ok(EndpointType::BlocksHead);
        }
        if text_eq(l, "blocks-head-rcblock") || text_eq(l, "blocks-head-rc") {
            return Ok(EndpointType::BlocksHeadRcBlock);
        }
        if text_eq(l, "blocks-header") || text_eq(l, "header") {
            return Ok(EndpointType::BlocksHeader);
        }
        if text_eq(l, "block-extrinsics") || text_eq(l, "extrinsics") {
            return Ok(EndpointType::BlockExtrinsics);
        }
        if text_eq(l, "block-extrinsics-raw") {
            return Ok(EndpointType::BlockExtrinsicsRaw);
        }
        if text_eq(l, "block-extrinsics-raw-rcblock") || text_eq(l, "block-extrinsics-raw-rc") {
            return Ok(EndpointType::BlockExtrinsicsRawRcBlock);
        }
        if text_eq(l, "block-extrinsics-idx") {
            return Ok(EndpointType::BlockExtrinsicsIdx);
        }
        if text_eq(l, "block-extrinsics-idx-rcblock") || text_eq(l, "block-extrinsics-idx-rc") {
            return Ok(EndpointType::BlockExtrinsicsIdxRcBlock);
        }
        if text_eq(l, "rc-block-extrinsics-raw") {
            return Ok(EndpointType::RcBlockExtrinsicsRaw);
        }
        if text_eq(l, "rc-block-extrinsics-idx") {
            return Ok(EndpointType::RcBlockExtrinsicsIdx);
        }
        if text_eq(l, "block-para-inclusions") || text_eq(l, "para-inclusions") {
            return Ok(EndpointType::BlockParaInclusions);
        }
        if text_eq(l, "coretime-info") {
            return Ok(EndpointType::CoretimeInfo);
        }
        if text_eq(l, "coretime-overview") {
            return Ok(EndpointType::CoretimeOverview);
        }
        if text_eq(l, "coretime-leases") {
            return Ok(EndpointType::CoretimeLeases);
        }
        if text_eq(l, "coretime-regions") || text_eq(l, "core-reg") {
            return Ok(EndpointType::CoretimeRegions);
        }
        if text_eq(l, "coretime-reservations") {
            return Ok(EndpointType::CoretimeReservations);
        }
        if text_eq(l, "node-version") || text_eq(l, "version") {
            return Ok(EndpointType::NodeVersion);
        }
        if text_eq(l, "node-network") || text_eq(l, "network") {
            return Ok(EndpointType::NodeNetwork);
        }
        if text_eq(l, "pallet-consts") || text_eq(l, "consts") {
            return Ok(EndpointType::PalletConsts);
        }
        if text_eq(l, "pallet-consts-item") || text_eq(l, "consts-item") {
            return Ok(EndpointType::PalletConstsConstantItem);
        }
        if text_eq(l, "pallet-storage") || text_eq(l, "storage") {
            return Ok(EndpointType::PalletStorage);
        }
        if text_eq(l, "rc-pallet-storage") {
            return Ok(EndpointType::RcPalletStorage);
        }
        if text_eq(l, "pallet-dispatchables") || text_eq(l, "dispatchables") {
            return Ok(EndpointType::PalletDispatchables);
        }
        if text_eq(l, "rc-pallet-dispatchables") {
            return Ok(EndpointType::RcPalletDispatchables);
        }
        if text_eq(l, "pallet-errors") || text_eq(l, "errors") {
            return Ok(EndpointType::PalletErrors);
        }
        if text_eq(l, "rc-pallet-errors") {
            return Ok(EndpointType::RcPalletErrors);
        }
        if text_eq(l, "pallet-events") {
            return Ok(EndpointType::PalletEvents);
        }
        if text_eq(l, "rc-pallet-events") {
            return Ok(EndpointType::RcPalletEvents);
        }
        if text_eq(l, "staking-validators") {
            return Ok(EndpointType::PalletStakingValidators);
        }
        if text_eq(l, "rc-staking-validators") {
            return Ok(EndpointType::RcPalletStakingValidators);
        }
        if text_eq(l, "runtime-spec") || text_eq(l, "spec") {
            return Ok(EndpointType::RuntimeSpec);
        }
        if text_eq(l, "runtime-metadata") || text_eq(l, "metadata") {
            return Ok(EndpointType::RuntimeMetadata);
        }
        if text_eq(l, "tx-material") || text_eq(l, "transaction-material") {
            return Ok(EndpointType::TransactionMaterial);
        }
        let mut msg = String::from_str("Unknown endpoint '");
        msg.append(s);
        msg.append(UNKNOWN_ENDPOINT_HELP);
        Err(msg)
    }
}

/// The list of valid names shown after an unknown endpoint name.
pub const UNKNOWN_ENDPOINT_HELP: &'static str = "'. Valid options:\n  Account: account-balance-info, account-foreign-asset-balance\n  Block: block, blocks-header, block-extrinsics, para-inclusions\n  Pallet: pallet-consts, pallet-storage, pallet-dispatchables, pallet-errors, pallet-events\n  Runtime: runtime-spec, runtime-metadata, tx-material\n  Node: node-version, node-network";

} // verus!
