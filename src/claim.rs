use vstd::prelude::*;

use crate::decimal::{decimal, to_decimal_string};
use crate::msg::{attrs_view, claims_view, ClaimAction, ClaimFor, Response};

verus! {

/// Why a claim operation was refused.
#[derive(Clone, Debug, PartialEq, Eq)]
pub enum ContractError {
    /// The marketplace given at creation is not a valid address.
    InvalidMarketplace { addr: String },
    /// The claimant has not minted anything.
    NoMinting,
    /// The caller is not the configured marketplace.
    Unauthorized,
    /// An address was refused by validation; the validator's message.
    Std { msg: String },
}

/// The trusted marketplace, set once at creation.
#[derive(Clone, Debug, PartialEq, Eq)]
pub struct Config {
    pub marketplace: String,
}

/// What creates the claim contract.
#[derive(Clone, Debug, PartialEq, Eq)]
pub struct InstantiateMsg {
    pub marketplace_addr: String,
}

/// The marketplace's notice of a finalized sale.
#[derive(Clone, Debug, PartialEq, Eq)]
pub struct SaleFinalizedHookMsg {
    pub collection: String,
    pub token_id: u32,
    pub seller: String,
    pub buyer: String,
}

/// The operations of the claim contract.
#[derive(Clone, Debug, PartialEq, Eq)]
pub enum ExecuteMsg {
    ClaimMintNFT { minter_address: String },
    SaleFinalizedHook(SaleFinalizedHookMsg),
}

/// Creates the contract's configuration. `addr_check` is the outcome of
/// validating `msg.marketplace_addr` as an address; a refusal becomes
/// `InvalidMarketplace` carrying the refused text.
pub fn instantiate(msg: InstantiateMsg, addr_check: Result<(), String>) -> (r: Result<
    (Config, Response),
    ContractError,
>)
    ensures
        match addr_check {
            Ok(()) => r matches Ok((cfg, res)) && cfg.marketplace == msg.marketplace_addr
                && res.messages@.len() == 0 && res.events@.len() == 0 && attrs_view(
                res.attributes@,
            ) == seq![("action"@, "instantiate"@)],
            Err(_) => r == Err::<(Config, Response), ContractError>(
                ContractError::InvalidMarketplace { addr: msg.marketplace_addr },
            ),
        },
{
    match addr_check {
        Ok(()) => {},
        Err(_) => {
            return Err(ContractError::InvalidMarketplace { addr: msg.marketplace_addr });
        },
    }
    let cfg = Config { marketplace: msg.marketplace_addr };
    Ok((cfg, Response::new().add_attribute("action", String::from_str("instantiate"))))
}

/// `res` is the response of a granted mint claim: one `MintNFT` reward to
/// `sender`, with attributes naming the action, the claimant and the minter.
pub open spec fn mint_claim_response(res: Response, sender: Seq<char>, minter: Seq<char>) -> bool {
    &&& claims_view(res.messages@) == seq![(sender, ClaimAction::MintNFT)]
    &&& res.events@.len() == 0
    &&& attrs_view(res.attributes@) == seq![
        ("action"@, "claim_mint_nft"@),
        ("sender"@, sender),
        ("minter"@, minter),
    ]
}

/// `res` is the response to a sale notice from the marketplace: one
/// `BidNFT` reward to the buyer, with attributes reporting the sale.
pub open spec fn buy_claim_response(res: Response, h: SaleFinalizedHookMsg) -> bool {
    &&& claims_view(res.messages@) == seq![(h.buyer@, ClaimAction::BidNFT)]
    &&& res.events@.len() == 0
    &&& attrs_view(res.attributes@) == seq![
        ("action"@, "claim_buy_nft"@),
        ("collection"@, h.collection@),
        ("token_id"@, decimal(h.token_id as nat)),
        ("seller"@, h.seller@),
        ("buyer"@, h.buyer@),
    ]
}

/// The caller may send sale notices: it is the configured marketplace.
pub open spec fn authorized(cfg: Config, caller: Seq<char>) -> bool {
    caller == cfg.marketplace@
}

/// Whether `caller` is the configured marketplace.
pub fn authorize(cfg: &Config, caller: &String) -> (r: bool)
    ensures
        r == authorized(*cfg, caller@),
{
    *caller == cfg.marketplace
}

/// Issues a mint reward to `sender`. `minter_check` is the outcome of
/// validating `minter` as an address, and `mint_count` the minter's count of
/// mints by `sender`. Nothing guards against claiming twice: eligibility is
/// decided afresh from the count on every call.
pub fn execute_claim_mint_nft(
    sender: String,
    minter: String,
    minter_check: Result<(), String>,
    mint_count: u32,
) -> (r: Result<Response, ContractError>)
    ensures
        match minter_check {
            Err(m) => r == Err::<Response, ContractError>(ContractError::Std { msg: m }),
            Ok(()) => if mint_count == 0 {
                r == Err::<Response, ContractError>(ContractError::NoMinting)
            } else {
                r matches Ok(res) && mint_claim_response(res, sender@, minter@)
            },
        },
{
    match minter_check {
        Ok(()) => {},
        Err(m) => {
            return Err(ContractError::Std { msg: m });
        },
    }
    if mint_count == 0 {
        return Err(ContractError::NoMinting);
    }
    let ghost (sv, mv) = (sender@, minter@);
    let msg = ClaimFor { recipient: sender.clone(), action: ClaimAction::MintNFT };
    let res = Response::new().add_message(msg);
    proof {
        assert(claims_view(res.messages@) =~= seq![(sender@, ClaimAction::MintNFT)]);
    }
    let res = res.add_attribute("action", String::from_str("claim_mint_nft"));
    let res = res.add_attribute("sender", sender);
    let res = res.add_attribute("minter", minter);
    proof {
        assert(attrs_view(res.attributes@) =~= seq![
            ("action"@, "claim_mint_nft"@),
            ("sender"@, sv),
            ("minter"@, mv),
        ]);
    }
    Ok(res)
}

/// Issues a bid reward to the buyer of a finalized sale. Only the configured
/// marketplace may send the notice; `buyer_check` is the outcome of
/// validating `buyer` as an address. `collection`, `token_id` and `seller`
/// are only reported.
pub fn execute_claim_buy_nft(
    cfg: &Config,
    sender: &String,
    collection: String,
    token_id: u32,
    seller: String,
    buyer: String,
    buyer_check: Result<(), String>,
) -> (r: Result<Response, ContractError>)
    ensures
        !authorized(*cfg, sender@) ==> r == Err::<Response, ContractError>(
            ContractError::Unauthorized,
        ),
        authorized(*cfg, sender@) ==> match buyer_check {
            Err(m) => r == Err::<Response, ContractError>(ContractError::Std { msg: m }),
            Ok(()) => r matches Ok(res) && buy_claim_response(
                res,
                SaleFinalizedHookMsg { collection, token_id, seller, buyer },
            ),
        },
{
    if !authorize(cfg, sender) {
        return Err(ContractError::Unauthorized);
    }
    match buyer_check {
        Ok(()) => {},
        Err(m) => {
            return Err(ContractError::Std { msg: m });
        },
    }
    let ghost h = SaleFinalizedHookMsg {
        collection: collection,
        token_id: token_id,
        seller: seller,
        buyer: buyer,
    };
    let msg = ClaimFor { recipient: buyer.clone(), action: ClaimAction::BidNFT };
    let res = Response::new().add_message(msg);
    proof {
        assert(claims_view(res.messages@) =~= seq![(buyer@, ClaimAction::BidNFT)]);
    }
    let res = res.add_attribute("action", String::from_str("claim_buy_nft"));
    let res = res.add_attribute("collection", collection);
    let res = res.add_attribute("token_id", to_decimal_string(token_id));
    let res = res.add_attribute("seller", seller);
    let res = res.add_attribute("buyer", buyer);
    proof {
        assert(attrs_view(res.attributes@) =~= seq![
            ("action"@, "claim_buy_nft"@),
            ("collection"@, h.collection@),
            ("token_id"@, decimal(token_id as nat)),
            ("seller"@, h.seller@),
            ("buyer"@, h.buyer@),
        ]);
    }
    Ok(res)
}

/// Runs one operation. `address_check` is the outcome of validating the
/// address the message names (the minter, or the buyer), and `mint_count`
/// the minter's count of mints by `sender` (read only for a mint claim).
pub fn execute(
    cfg: &Config,
    sender: String,
    msg: ExecuteMsg,
    address_check: Result<(), String>,
    mint_count: u32,
) -> (r: Result<Response, ContractError>)
    ensures
        match msg {
            ExecuteMsg::ClaimMintNFT { minter_address } => match address_check {
                Err(m) => r == Err::<Response, ContractError>(ContractError::Std { msg: m }),
                Ok(()) => if mint_count == 0 {
                    r == Err::<Response, ContractError>(ContractError::NoMinting)
                } else {
                    r matches Ok(res) && mint_claim_response(res, sender@, minter_address@)
                },
            },
            ExecuteMsg::SaleFinalizedHook(h) => if !authorized(*cfg, sender@) {
                r == Err::<Response, ContractError>(ContractError::Unauthorized)
            } else {
                match address_check {
                    Err(m) => r == Err::<Response, ContractError>(ContractError::Std { msg: m }),
                    Ok(()) => r matches Ok(res) && buy_claim_response(res, h),
                }
            },
        },
{
    match msg {
        ExecuteMsg::ClaimMintNFT { minter_address } => {
            execute_claim_mint_nft(sender, minter_address, address_check, mint_count)
        },
        ExecuteMsg::SaleFinalizedHook(SaleFinalizedHookMsg { collection, token_id, seller, buyer }) => {
            execute_claim_buy_nft(cfg, &sender, collection, token_id, seller, buyer, address_check)
        },
    }
}

} // verus!
