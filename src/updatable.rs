use vstd::prelude::*;

use crate::msg::{attrs_view, Coin, Event, Response};

verus! {

/// Why an operation on the collection was refused.
#[derive(Clone, Copy, Debug, PartialEq, Eq, Structural)]
pub enum ContractError {
    /// The caller is not the one the operation requires.
    Unauthorized,
    /// A token with this id already exists.
    Claimed,
    /// Funds were attached to an operation that takes none.
    NonPayable,
    /// Token metadata is frozen and can no longer be changed.
    TokenMetadataFrozen,
    /// No token has this id.
    TokenIdNotFound,
}

/// Descriptive data of the collection.
#[derive(Clone, Debug, PartialEq, Eq)]
pub struct CollectionInfo {
    pub creator: String,
    pub description: String,
    pub image: String,
}

/// What creates a collection.
#[derive(Clone, Debug, PartialEq, Eq)]
pub struct InstantiateMsg {
    pub name: String,
    pub symbol: String,
    pub minter: String,
    pub collection_info: CollectionInfo,
}

/// One token of the collection.
#[derive(Clone, Debug, PartialEq, Eq)]
pub struct TokenInfo {
    pub token_id: String,
    pub owner: String,
    pub token_uri: Option<String>,
}

/// A collection whose token metadata the creator may edit until it is
/// frozen. `frozen` only ever goes from `false` to `true`.
#[derive(Clone, Debug, PartialEq, Eq)]
pub struct Sg721Updatable {
    pub name: String,
    pub symbol: String,
    pub minter: String,
    pub collection_info: CollectionInfo,
    pub frozen: bool,
    pub tokens: Vec<TokenInfo>,
}

/// An optional URI as an optional character sequence.
pub open spec fn uri_view(u: Option<String>) -> Option<Seq<char>> {
    match u {
        Some(s) => Some(s@),
        None => None,
    }
}

/// The URI's characters, or nothing when there is none.
pub open spec fn uri_or_empty(u: Option<String>) -> Seq<char> {
    match u {
        Some(s) => s@,
        None => Seq::empty(),
    }
}

/// Some token of `toks` has the id `id`.
pub open spec fn has_token(toks: Seq<TokenInfo>, id: Seq<char>) -> bool {
    exists|i: int| 0 <= i < toks.len() && toks[i].token_id@ == id
}

/// No two tokens share an id.
pub open spec fn ids_unique(toks: Seq<TokenInfo>) -> bool {
    forall|i: int, j: int|
        0 <= i < toks.len() && 0 <= j < toks.len() && i != j ==> toks[i].token_id@
            != toks[j].token_id@
}

/// The position of the token with id `id`, where there is one.
pub open spec fn token_index(toks: Seq<TokenInfo>, id: Seq<char>) -> int {
    choose|i: int| 0 <= i < toks.len() && toks[i].token_id@ == id
}

/// `toks` with the URI of the token `id` replaced by `uri`.
pub open spec fn with_uri(toks: Seq<TokenInfo>, id: Seq<char>, uri: Option<String>) -> Seq<
    TokenInfo,
> {
    let i = token_index(toks, id);
    toks.update(i, TokenInfo { token_id: toks[i].token_id, owner: toks[i].owner, token_uri: uri })
}

/// `a` and `b` agree on everything but their tokens.
pub open spec fn same_but_tokens(a: Sg721Updatable, b: Sg721Updatable) -> bool {
    &&& a.name == b.name
    &&& a.symbol == b.symbol
    &&& a.minter == b.minter
    &&& a.collection_info == b.collection_info
    &&& a.frozen == b.frozen
}

impl Sg721Updatable {
    /// Token ids are unique.
    pub open spec fn wf(&self) -> bool {
        ids_unique(self.tokens@)
    }

    /// The creator recorded for the collection.
    pub open spec fn creator(&self) -> Seq<char> {
        self.collection_info.creator@
    }

    /// The error with which freezing is refused, checked in this order:
    /// attached funds, then a caller other than the creator.
    pub open spec fn freeze_error(&self, sender: Seq<char>, paid: bool) -> Option<ContractError> {
        if paid {
            Some(ContractError::NonPayable)
        } else if sender != self.creator() {
            Some(ContractError::Unauthorized)
        } else {
            None
        }
    }

    /// The error with which a metadata update is refused, checked in this
    /// order: attached funds, a caller other than the creator, a frozen
    /// collection, an unknown token id.
    pub open spec fn update_error(&self, sender: Seq<char>, paid: bool, id: Seq<char>) -> Option<
        ContractError,
    > {
        if paid {
            Some(ContractError::NonPayable)
        } else if sender != self.creator() {
            Some(ContractError::Unauthorized)
        } else if self.frozen {
            Some(ContractError::TokenMetadataFrozen)
        } else if !has_token(self.tokens@, id) {
            Some(ContractError::TokenIdNotFound)
        } else {
            None
        }
    }

    /// The error with which minting is refused: a caller other than the
    /// minter, then an id already in use.
    pub open spec fn mint_error(&self, sender: Seq<char>, id: Seq<char>) -> Option<ContractError> {
        if sender != self.minter@ {
            Some(ContractError::Unauthorized)
        } else if has_token(self.tokens@, id) {
            Some(ContractError::Claimed)
        } else {
            None
        }
    }

    /// The position of the token `token_id`, or `None` where there is none.
    pub fn find_token(&self, token_id: &String) -> (r: Option<usize>)
        requires
            self.wf(),
        ensures
            match r {
                Some(i) => i < self.tokens@.len() && self.tokens@[i as int].token_id@ == token_id@
                    && i == token_index(self.tokens@, token_id@),
                None => !has_token(self.tokens@, token_id@),
            },
    {
        let mut i: usize = 0;
        while i < self.tokens.len()
            invariant
                self.wf(),
                i <= self.tokens@.len(),
                forall|j: int| 0 <= j < i ==> self.tokens@[j].token_id@ != token_id@,
            decreases self.tokens@.len() - i,
        {
            if self.tokens[i].token_id == *token_id {
                proof {
                    assert(has_token(self.tokens@, token_id@));
                    let k = token_index(self.tokens@, token_id@);
                    assert(self.tokens@[k].token_id@ == token_id@);
                }
                return Some(i);
            }
            i = i + 1;
        }
        None
    }

    /// Whether token ids are unique, so that the other operations may run.
    pub fn is_wf(&self) -> (r: bool)
        ensures
            r == self.wf(),
    {
        let n = self.tokens.len();
        let mut i: usize = 0;
        while i < n
            invariant
                n == self.tokens@.len(),
                i <= n,
                forall|a: int, b: int|
                    0 <= a < i && 0 <= b < n && a != b ==> self.tokens@[a].token_id@
                        != self.tokens@[b].token_id@,
            decreases n - i,
        {
            let mut j: usize = 0;
            while j < n
                invariant
                    n == self.tokens@.len(),
                    i < n,
                    j <= n,
                    forall|a: int, b: int|
                        0 <= a < i && 0 <= b < n && a != b ==> self.tokens@[a].token_id@
                            != self.tokens@[b].token_id@,
                    forall|b: int|
                        0 <= b < j && b != i ==> self.tokens@[i as int].token_id@
                            != self.tokens@[b].token_id@,
                decreases n - j,
            {
                if j != i && self.tokens[i].token_id == self.tokens[j].token_id {
                    return false;
                }
                j = j + 1;
            }
            i = i + 1;
        }
        true
    }

    /// Creates a collection with no tokens and metadata not frozen.
    pub fn instantiate(msg: InstantiateMsg) -> (r: (Sg721Updatable, Response))
        ensures
            r.0.name == msg.name,
            r.0.symbol == msg.symbol,
            r.0.minter == msg.minter,
            r.0.collection_info == msg.collection_info,
            !r.0.frozen,
            r.0.tokens@.len() == 0,
            r.0.wf(),
            r.1.messages@.len() == 0,
            r.1.events@.len() == 0,
            attrs_view(r.1.attributes@) == seq![
                ("action"@, "instantiate"@),
                ("collection_name"@, msg.name@),
            ],
    {
        let res = Response::new().add_attribute("action", String::from_str("instantiate"));
        let res = res.add_attribute("collection_name", msg.name.clone());
        let c = Sg721Updatable {
            name: msg.name,
            symbol: msg.symbol,
            minter: msg.minter,
            collection_info: msg.collection_info,
            frozen: false,
            tokens: Vec::new(),
        };
        (c, res)
    }

    /// Mints the token `token_id` to `owner`. Only the minter may mint, and
    /// each id only once.
    pub fn mint(
        &mut self,
        sender: &String,
        token_id: String,
        owner: String,
        token_uri: Option<String>,
    ) -> (r: Result<Response, ContractError>)
        requires
            old(self).wf(),
        ensures
            final(self).wf(),
            same_but_tokens(*final(self), *old(self)),
            match r {
                Ok(res) => {
                    &&& old(self).mint_error(sender@, token_id@) is None
                    &&& final(self).tokens@ == old(self).tokens@.push(
                        TokenInfo { token_id, owner, token_uri },
                    )
                    &&& res.messages@.len() == 0
                    &&& res.events@.len() == 0
                    &&& attrs_view(res.attributes@) == seq![
                        ("action"@, "mint"@),
                        ("minter"@, sender@),
                        ("owner"@, owner@),
                        ("token_id"@, token_id@),
                    ]
                },
                Err(e) => {
                    &&& old(self).mint_error(sender@, token_id@) == Some(e)
                    &&& *final(self) == *old(self)
                },
            },
    {
        if *sender != self.minter {
            return Err(ContractError::Unauthorized);
        }
        if self.find_token(&token_id).is_some() {
            return Err(ContractError::Claimed);
        }
        let res = Response::new().add_attribute("action", String::from_str("mint"));
        let res = res.add_attribute("minter", sender.clone());
        let res = res.add_attribute("owner", owner.clone());
        let res = res.add_attribute("token_id", token_id.clone());
        let t = TokenInfo { token_id, owner, token_uri };
        self.tokens.push(t);
        Ok(res)
    }

    /// Freezes token metadata for good. Only the creator may do so, and
    /// without attached funds; freezing a frozen collection succeeds again.
    pub fn execute_freeze_token_metadata(&mut self, sender: &String, funds: &Vec<Coin>) -> (r:
        Result<Response, ContractError>)
        requires
            old(self).wf(),
        ensures
            final(self).wf(),
            old(self).frozen ==> final(self).frozen,
            final(self).tokens == old(self).tokens,
            match r {
                Ok(res) => {
                    &&& old(self).freeze_error(sender@, funds@.len() > 0) is None
                    &&& *final(self) == (Sg721Updatable { frozen: true, ..*old(self) })
                    &&& res.messages@.len() == 0
                    &&& res.events@.len() == 0
                    &&& attrs_view(res.attributes@) == seq![
                        ("action"@, "freeze_token_metadata"@),
                        ("frozen"@, "true"@),
                    ]
                },
                Err(e) => {
                    &&& old(self).freeze_error(sender@, funds@.len() > 0) == Some(e)
                    &&& *final(self) == *old(self)
                },
            },
    {
        match nonpayable(funds) {
            Ok(()) => {},
            Err(e) => {
                return Err(e);
            },
        }
        if *sender != self.collection_info.creator {
            return Err(ContractError::Unauthorized);
        }
        self.frozen = true;
        let res = Response::new().add_attribute("action", String::from_str("freeze_token_metadata"));
        let res = res.add_attribute("frozen", String::from_str("true"));
        Ok(res)
    }

    /// Replaces the URI of token `token_id` by `token_uri` (`None` clears
    /// it). Only the creator may do so, without attached funds, and only
    /// while metadata is not frozen.
    pub fn execute_update_token_metadata(
        &mut self,
        sender: &String,
        funds: &Vec<Coin>,
        token_id: String,
        token_uri: Option<String>,
    ) -> (r: Result<Response, ContractError>)
        requires
            old(self).wf(),
        ensures
            final(self).wf(),
            same_but_tokens(*final(self), *old(self)),
            match r {
                Ok(res) => {
                    &&& old(self).update_error(sender@, funds@.len() > 0, token_id@) is None
                    &&& final(self).tokens@ == with_uri(old(self).tokens@, token_id@, token_uri)
                    &&& res.messages@.len() == 0
                    &&& res.attributes@.len() == 0
                    &&& res.events@.len() == 1
                    &&& res.events@[0].ty@ == "update_update_token_metadata"@
                    &&& attrs_view(res.events@[0].attributes@) == seq![
                        ("sender"@, sender@),
                        ("token_id"@, token_id@),
                        ("token_uri"@, uri_or_empty(token_uri)),
                    ]
                },
                Err(e) => {
                    &&& old(self).update_error(sender@, funds@.len() > 0, token_id@) == Some(e)
                    &&& *final(self) == *old(self)
                },
            },
    {
        match nonpayable(funds) {
            Ok(()) => {},
            Err(e) => {
                return Err(e);
            },
        }
        if *sender != self.collection_info.creator {
            return Err(ContractError::Unauthorized);
        }
        if self.frozen {
            return Err(ContractError::TokenMetadataFrozen);
        }
        let i = match self.find_token(&token_id) {
            Some(i) => i,
            None => {
                return Err(ContractError::TokenIdNotFound);
            },
        };
        let shown_uri = match &token_uri {
            Some(u) => u.clone(),
            None => String::new(),
        };
        let ghost before = self.tokens@;
        self.tokens[i].token_uri = token_uri;
        assert(self.tokens@ =~= with_uri(before, token_id@, token_uri));
        let event = Event::new("update_update_token_metadata").add_attribute("sender", sender.clone());
        let event = event.add_attribute("token_id", token_id);
        let event = event.add_attribute("token_uri", shown_uri);
        Ok(Response::new().add_event(event))
    }

    /// The token `token_id`, or `None` where there is none.
    pub fn nft_info(&self, token_id: &String) -> (r: Option<TokenInfo>)
        requires
            self.wf(),
        ensures
            match r {
                Some(t) => has_token(self.tokens@, token_id@) && t == self.tokens@[token_index(
                    self.tokens@,
                    token_id@,
                )],
                None => !has_token(self.tokens@, token_id@),
            },
    {
        match self.find_token(token_id) {
            Some(i) => {
                let t = &self.tokens[i];
                let token_uri = match &t.token_uri {
                    Some(u) => Some(u.clone()),
                    None => None,
                };
                Some(TokenInfo { token_id: t.token_id.clone(), owner: t.owner.clone(), token_uri })
            },
            None => None,
        }
    }

    /// The creator recorded for the collection.
    pub fn query_creator(&self) -> (r: String)
        ensures
            r@ == self.creator(),
    {
        self.collection_info.creator.clone()
    }
}

/// Once freezing has succeeded, the collection refuses every metadata
/// update, whoever calls: with `TokenMetadataFrozen` when the creator calls
/// without funds, and earlier with `NonPayable` or `Unauthorized` otherwise.
pub proof fn lemma_update_after_freeze(
    s: Sg721Updatable,
    freezer: Seq<char>,
    sender: Seq<char>,
    paid: bool,
    id: Seq<char>,
)
    requires
        s.freeze_error(freezer, false) is None,
    ensures
        (Sg721Updatable { frozen: true, ..s }).update_error(sender, paid, id) is Some,
        sender == s.creator() && !paid ==> (Sg721Updatable { frozen: true, ..s }).update_error(
            sender,
            paid,
            id,
        ) == Some(ContractError::TokenMetadataFrozen),
{
}

/// A frozen collection refuses every metadata update; the creator calling
/// without funds gets `TokenMetadataFrozen`. (That it stays frozen is stated
/// by each operation's own contract.)
pub proof fn lemma_frozen_refuses_updates(s: Sg721Updatable, sender: Seq<char>, paid: bool, id: Seq<char>)
    requires
        s.frozen,
    ensures
        s.update_error(sender, paid, id) is Some,
        sender == s.creator() && !paid ==> s.update_error(sender, paid, id) == Some(
            ContractError::TokenMetadataFrozen,
        ),
{
}

/// Only the creator may freeze or update metadata: any other caller who
/// attaches no funds is refused with `Unauthorized` by both.
pub proof fn lemma_only_creator(s: Sg721Updatable, sender: Seq<char>, id: Seq<char>)
    requires
        sender != s.creator(),
    ensures
        s.freeze_error(sender, false) == Some(ContractError::Unauthorized),
        s.update_error(sender, false, id) == Some(ContractError::Unauthorized),
{
}

/// An update of an id that no token has is refused with `TokenIdNotFound`
/// once the creator calls, without funds, on an unfrozen collection.
pub proof fn lemma_unknown_token(s: Sg721Updatable, id: Seq<char>)
    requires
        !has_token(s.tokens@, id),
        !s.frozen,
    ensures
        s.update_error(s.creator(), false, id) == Some(ContractError::TokenIdNotFound),
{
}

/// Refuses attached funds: `Ok` exactly when `funds` is empty.
pub fn nonpayable(funds: &Vec<Coin>) -> (r: Result<(), ContractError>)
    ensures
        r is Ok <==> funds@.len() == 0,
        r is Err ==> r == Err::<(), ContractError>(ContractError::NonPayable),
{
    if funds.len() == 0 {
        Ok(())
    } else {
        Err(ContractError::NonPayable)
    }
}

} // verus!
