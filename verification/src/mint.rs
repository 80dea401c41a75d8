//! The mint conversation with NFTPort, and the records that travel with it.
//!
//! Minting is a short conversation: derive the owner's wallet address, ask
//! NFTPort to mint, wait for the chain to confirm, then ask NFTPort for the
//! minted token. `mint_start` and `mint_step` make every decision of that
//! conversation; the application performs each `MintAction` and answers with
//! the matching `MintEvent`.
use vstd::prelude::*;
use vstd::string::*;
use crate::text::{
    concat3, first_segment, has_hex_prefix, is_first_segment, lemma_first_segment_unique,
    same_text, separator_at, starts_with_hex_prefix,
};

verus! {

/// What the worker's notifications are about.
#[derive(Clone, Copy, Debug, PartialEq, Eq, Structural)]
pub enum ActionType {
    Mint,
}

/// NFTPort's answer to a mint request.
#[derive(Clone, Debug)]
pub struct NftPortMintResponse {
    pub response: String,
    pub chain: String,
    pub contract_address: String,
    pub transaction_hash: String,
    pub transaction_external_url: String,
    pub metadata_uri: String,
    pub mint_to_address: String,
}

/// NFTPort's answer to a request for a minted token.
#[derive(Clone, Debug)]
pub struct NftPortGetNftResponse {
    pub response: String,
    pub chain: String,
    pub contract_address: String,
    pub token_id: String,
}

/// A request to mint (or update) a user's NFT.
///
/// The fields that hold free-form JSON (`extra`, `attributes`, `comments`,
/// `likes`) hold its JSON text.
#[derive(Clone, Debug)]
pub struct UpdateUserNftRequest {
    pub caller_cid: String,
    pub col_id: i32,
    pub buyer_screen_cid: Option<String>,
    pub transfer_to_screen_cid: Option<String>,
    pub amount: i64,
    pub nft_id: i32,
    pub event_type: String,
    pub contract_address: String,
    pub current_owner_screen_cid: String,
    pub metadata_uri: String,
    pub extra: Option<String>,
    pub attributes: Option<String>,
    pub onchain_id: Option<String>,
    pub nft_name: String,
    pub is_minted: Option<bool>,
    pub nft_description: String,
    pub current_price: Option<i64>,
    pub is_listed: Option<bool>,
    pub freeze_metadata: Option<bool>,
    pub comments: Option<String>,
    pub likes: Option<String>,
    pub tx_hash: Option<String>,
    pub tx_signature: String,
    pub hash_data: String,
}

/// The outcome of minting one request.
#[derive(Clone, Debug)]
pub struct MintResult {
    pub nft_data: UpdateUserNftRequest,
    pub tx_hash: String,
    pub token_id: String,
    pub status: u8,
}

/// A notification exchanged with the main service.
///
/// `receiver_info`, `action_data` and `actioner_info` hold JSON text.
#[derive(Clone, Debug)]
pub struct NotifData {
    pub id: String,
    pub receiver_info: Option<String>,
    pub action_data: Option<String>,
    pub actioner_info: Option<String>,
    pub action_type: ActionType,
    pub fired_at: Option<i64>,
    pub is_seen: bool,
}

/// A copy of an optional text.
fn copy_text_opt(o: &Option<String>) -> (r: Option<String>)
    ensures
        r == *o,
{
    match o {
        Some(s) => Some(s.clone()),
        None => None,
    }
}

impl UpdateUserNftRequest {
    /// A field-for-field copy of the request.
    pub fn duplicate(&self) -> (r: Self)
        ensures
            r == *self,
    {
        UpdateUserNftRequest {
            caller_cid: self.caller_cid.clone(),
            col_id: self.col_id,
            buyer_screen_cid: copy_text_opt(&self.buyer_screen_cid),
            transfer_to_screen_cid: copy_text_opt(&self.transfer_to_screen_cid),
            amount: self.amount,
            nft_id: self.nft_id,
            event_type: self.event_type.clone(),
            contract_address: self.contract_address.clone(),
            current_owner_screen_cid: self.current_owner_screen_cid.clone(),
            metadata_uri: self.metadata_uri.clone(),
            extra: copy_text_opt(&self.extra),
            attributes: copy_text_opt(&self.attributes),
            onchain_id: copy_text_opt(&self.onchain_id),
            nft_name: self.nft_name.clone(),
            is_minted: self.is_minted,
            nft_description: self.nft_description.clone(),
            current_price: self.current_price,
            is_listed: self.is_listed,
            freeze_metadata: self.freeze_metadata,
            comments: copy_text_opt(&self.comments),
            likes: copy_text_opt(&self.likes),
            tx_hash: copy_text_opt(&self.tx_hash),
            tx_signature: self.tx_signature.clone(),
            hash_data: self.hash_data.clone(),
        }
    }
}

/// NFTPort's endpoint for minting with custom metadata.
pub const MINT_ENDPOINT: &'static str = "https://api.nftport.xyz/v0/mints/customizable";

/// Where NFTPort's URL for a mint transaction begins.
pub const NFT_INFO_PREFIX: &'static str = "https://api.nftport.xyz/v0/mints/";

/// Where NFTPort's URL for a mint transaction ends.
pub const NFT_INFO_SUFFIX: &'static str = "?chain=polygon";

/// The chain that tokens are minted on.
pub const MINT_CHAIN: &'static str = "polygon";

/// NFTPort's word for success.
pub const NFTPORT_OK: &'static str = "OK";

/// How long, in seconds, a mint transaction is given to be confirmed.
pub const CONFIRMATION_WAIT_SECS: u64 = 45;

/// The part of `s` before its first `::`, or all of `s` when it holds none.
pub open spec fn first_segment_of(s: Seq<char>) -> Seq<char>
    decreases s.len(),
{
    if s.len() == 0 || separator_at(s, 0) {
        Seq::empty()
    } else {
        seq![s[0]] + first_segment_of(s.drop_first())
    }
}

/// `first_segment_of` meets the characterisation of the part before the first `::`.
pub proof fn lemma_first_segment_of(s: Seq<char>)
    ensures
        is_first_segment(s, first_segment_of(s)),
    decreases s.len(),
{
    if s.len() == 0 || separator_at(s, 0) {
        assert(first_segment_of(s) =~= s.take(0));
    } else {
        let t = s.drop_first();
        lemma_first_segment_of(t);
        let h = first_segment_of(s);
        let ht = first_segment_of(t);
        assert(h == seq![s[0]] + ht);
        assert(h =~= s.take(h.len() as int)) by {
            assert forall|i: int| 0 <= i < h.len() implies h[i] == s[i] by {
                if i > 0 {
                    assert(h[i] == ht[i - 1]);
                    assert(ht[i - 1] == t[i - 1]);
                }
            }
        }
        assert forall|i: int| 0 <= i < h.len() implies !separator_at(s, i) by {
            if i > 0 {
                assert(!separator_at(t, i - 1));
                if separator_at(s, i) {
                    assert(t[i - 1] == s[i] && t[i] == s[i + 1]);
                }
            }
        }
        if h.len() < s.len() {
            assert(ht.len() < t.len());
            assert(separator_at(t, ht.len() as int));
            assert(t[ht.len() as int] == s[h.len() as int]);
            assert(t[ht.len() as int + 1] == s[h.len() as int + 1]);
        }
    }
}

/// The fields of a mint request, as NFTPort reads them.
#[derive(Clone, Debug)]
pub struct MintRequestBody {
    pub chain: String,
    pub contract_address: String,
    pub metadata_uri: String,
    pub mint_to_address: String,
}

/// Where the mint conversation stands.
pub enum MintState {
    /// The owner's wallet address is being derived; the metadata URI is not empty.
    DerivingAddress { metadata_uri: String, contract_address: String },
    /// The mint request has been sent.
    AwaitingMint,
    /// The mint transaction is being given time to confirm.
    Confirming { tx_hash: String },
    /// The request for the minted token has been sent.
    AwaitingNft { tx_hash: String },
    /// The conversation is over.
    Finished,
}

/// What the application reports back after performing a `MintAction`.
pub enum MintEvent {
    /// The owner's wallet address, derived from the caller's public key.
    AddressDerived { address: String },
    /// NFTPort's answer to the mint request; `None` when the body was not a mint response.
    MintReplied { reply: Option<NftPortMintResponse> },
    /// The confirmation wait is over.
    WaitOver,
    /// NFTPort's answer about the minted token; `None` when the body was not such an answer.
    NftReplied { reply: Option<NftPortGetNftResponse> },
}

/// What the application is to do next.
pub enum MintAction {
    /// Derive the wallet address of the public key `caller_cid`.
    DeriveAddress { caller_cid: String },
    /// Send `body` to `url` as a JSON object with NFTPort's token.
    PostMint { url: String, body: MintRequestBody },
    /// Sleep for `seconds` seconds.
    Wait { seconds: u64 },
    /// Ask `url` with NFTPort's token.
    GetNft { url: String },
    /// The conversation ended with this transaction hash, token id and status.
    Finish { tx_hash: String, token_id: String, status: u8 },
}

/// The model of a mint request body.
pub struct MintRequestBodyView {
    pub chain: Seq<char>,
    pub contract_address: Seq<char>,
    pub metadata_uri: Seq<char>,
    pub mint_to_address: Seq<char>,
}

/// The model of a `MintState`.
pub enum MintStateView {
    DerivingAddress { metadata_uri: Seq<char>, contract_address: Seq<char> },
    AwaitingMint,
    Confirming { tx_hash: Seq<char> },
    AwaitingNft { tx_hash: Seq<char> },
    Finished,
}

/// The model of a `MintAction`.
pub enum MintActionView {
    DeriveAddress { caller_cid: Seq<char> },
    PostMint { url: Seq<char>, body: MintRequestBodyView },
    Wait { seconds: u64 },
    GetNft { url: Seq<char> },
    Finish { tx_hash: Seq<char>, token_id: Seq<char>, status: u8 },
}

impl View for MintRequestBody {
    type V = MintRequestBodyView;

    open spec fn view(&self) -> MintRequestBodyView {
        MintRequestBodyView {
            chain: self.chain@,
            contract_address: self.contract_address@,
            metadata_uri: self.metadata_uri@,
            mint_to_address: self.mint_to_address@,
        }
    }
}

impl View for MintState {
    type V = MintStateView;

    open spec fn view(&self) -> MintStateView {
        match self {
            MintState::DerivingAddress { metadata_uri, contract_address } =>
                MintStateView::DerivingAddress {
                    metadata_uri: metadata_uri@,
                    contract_address: contract_address@,
                },
            MintState::AwaitingMint => MintStateView::AwaitingMint,
            MintState::Confirming { tx_hash } => MintStateView::Confirming { tx_hash: tx_hash@ },
            MintState::AwaitingNft { tx_hash } => MintStateView::AwaitingNft { tx_hash: tx_hash@ },
            MintState::Finished => MintStateView::Finished,
        }
    }
}

impl View for MintAction {
    type V = MintActionView;

    open spec fn view(&self) -> MintActionView {
        match self {
            MintAction::DeriveAddress { caller_cid } =>
                MintActionView::DeriveAddress { caller_cid: caller_cid@ },
            MintAction::PostMint { url, body } => MintActionView::PostMint { url: url@, body: body@ },
            MintAction::Wait { seconds } => MintActionView::Wait { seconds: *seconds },
            MintAction::GetNft { url } => MintActionView::GetNft { url: url@ },
            MintAction::Finish { tx_hash, token_id, status } =>
                MintActionView::Finish { tx_hash: tx_hash@, token_id: token_id@, status: *status },
        }
    }
}

/// The end of a conversation that failed: no hash, no token, status 1.
pub open spec fn mint_failed() -> MintActionView {
    MintActionView::Finish { tx_hash: Seq::empty(), token_id: Seq::empty(), status: 1 }
}

/// An end of the conversation is either a success, whose hash begins with
/// `0x`, or the failure `("", "", 1)`.
pub open spec fn well_formed_finish(a: MintActionView) -> bool {
    a matches MintActionView::Finish { tx_hash, token_id, status } ==> {
        ||| status == 0 && tx_hash.len() >= 2 && tx_hash[0] == '0' && tx_hash[1] == 'x'
        ||| status == 1 && tx_hash.len() == 0 && token_id.len() == 0
    }
}

/// NFTPort's URL for the mint transaction `tx_hash`.
pub open spec fn nft_info_url(tx_hash: Seq<char>) -> Seq<char> {
    NFT_INFO_PREFIX@ + tx_hash + NFT_INFO_SUFFIX@
}

/// How the conversation opens for a request with these fields.
pub open spec fn spec_mint_start(
    metadata_uri: Seq<char>,
    contract_address: Seq<char>,
    caller_cid: Seq<char>,
) -> (MintStateView, MintActionView) {
    if metadata_uri.len() == 0 {
        (MintStateView::Finished, mint_failed())
    } else {
        (
            MintStateView::DerivingAddress { metadata_uri, contract_address },
            MintActionView::DeriveAddress { caller_cid },
        )
    }
}

/// The event is the answer that the state waits for.
pub open spec fn mint_accepts(s: MintStateView, e: MintEvent) -> bool {
    match s {
        MintStateView::DerivingAddress { .. } => e is AddressDerived,
        MintStateView::AwaitingMint => e is MintReplied,
        MintStateView::Confirming { .. } => e is WaitOver,
        MintStateView::AwaitingNft { .. } => e is NftReplied,
        MintStateView::Finished => false,
    }
}

/// One move of the conversation: the state that follows and what to do.
pub open spec fn spec_mint_step(s: MintStateView, e: MintEvent) -> (MintStateView, MintActionView) {
    match s {
        MintStateView::DerivingAddress { metadata_uri, contract_address } => match e {
            MintEvent::AddressDerived { address } => (
                MintStateView::AwaitingMint,
                MintActionView::PostMint {
                    url: MINT_ENDPOINT@,
                    body: MintRequestBodyView {
                        chain: MINT_CHAIN@,
                        contract_address,
                        metadata_uri: first_segment_of(metadata_uri),
                        mint_to_address: address@,
                    },
                },
            ),
            _ => (s, mint_failed()),
        },
        MintStateView::AwaitingMint => match e {
            MintEvent::MintReplied { reply } => match reply {
                Some(r) => if r.response@ == NFTPORT_OK@ {
                    (
                        MintStateView::Confirming { tx_hash: reply->0.transaction_hash@ },
                        MintActionView::Wait { seconds: CONFIRMATION_WAIT_SECS },
                    )
                } else {
                    (MintStateView::Finished, mint_failed())
                },
                None => (MintStateView::Finished, mint_failed()),
            },
            _ => (s, mint_failed()),
        },
        MintStateView::Confirming { tx_hash } => match e {
            MintEvent::WaitOver => (
                MintStateView::AwaitingNft { tx_hash },
                MintActionView::GetNft { url: nft_info_url(tx_hash) },
            ),
            _ => (s, mint_failed()),
        },
        MintStateView::AwaitingNft { tx_hash } => match e {
            MintEvent::NftReplied { reply } => match reply {
                Some(n) => if has_hex_prefix(tx_hash) {
                    (
                        MintStateView::Finished,
                        MintActionView::Finish {
                            tx_hash,
                            token_id: if n.response@ == NFTPORT_OK@ {
                                n.token_id@
                            } else {
                                Seq::empty()
                            },
                            status: 0,
                        },
                    )
                } else {
                    (MintStateView::Finished, mint_failed())
                },
                None => (MintStateView::Finished, mint_failed()),
            },
            _ => (s, mint_failed()),
        },
        MintStateView::Finished => (s, mint_failed()),
    }
}

/// The answer that an outside world with these replies gives to `a`.
pub open spec fn answer(
    a: MintActionView,
    address: String,
    mint_reply: Option<NftPortMintResponse>,
    nft_reply: Option<NftPortGetNftResponse>,
) -> MintEvent {
    match a {
        MintActionView::DeriveAddress { .. } => MintEvent::AddressDerived { address },
        MintActionView::PostMint { .. } => MintEvent::MintReplied { reply: mint_reply },
        MintActionView::Wait { .. } => MintEvent::WaitOver,
        _ => MintEvent::NftReplied { reply: nft_reply },
    }
}

/// The actions of a conversation that stands at `s`, has just asked for `a`,
/// and is answered by that outside world, for at most `fuel` more answers.
pub open spec fn conversation(
    s: MintStateView,
    a: MintActionView,
    address: String,
    mint_reply: Option<NftPortMintResponse>,
    nft_reply: Option<NftPortGetNftResponse>,
    fuel: nat,
) -> Seq<MintActionView>
    decreases fuel,
{
    if fuel == 0 || a is Finish {
        seq![a]
    } else {
        let next = spec_mint_step(s, answer(a, address, mint_reply, nft_reply));
        seq![a] + conversation(next.0, next.1, address, mint_reply, nft_reply, (fuel - 1) as nat)
    }
}

/// What minting a request with this metadata URI comes to, given NFTPort's
/// answer to the mint request and its answer about the minted token.
pub open spec fn mint_outcome(
    metadata_uri: Seq<char>,
    mint_reply: Option<NftPortMintResponse>,
    nft_reply: Option<NftPortGetNftResponse>,
) -> MintActionView {
    if metadata_uri.len() == 0 {
        mint_failed()
    } else if mint_reply is None || mint_reply->0.response@ != "OK"@ {
        mint_failed()
    } else if nft_reply is None || !(mint_reply->0.transaction_hash@.len() >= 2 && mint_reply->0.transaction_hash@[0] == '0'
        && mint_reply->0.transaction_hash@[1] == 'x') {
        mint_failed()
    } else {
        MintActionView::Finish {
            tx_hash: mint_reply->0.transaction_hash@,
            token_id: if nft_reply->0.response@ == "OK"@ {
                nft_reply->0.token_id@
            } else {
                Seq::empty()
            },
            status: 0,
        }
    }
}

/// Minting a request comes to `mint_outcome`: the conversation, answered by
/// NFTPort, ends within five actions with that outcome. It sends nothing when
/// the metadata URI is empty; otherwise it first derives the caller's address
/// and then posts one mint request, whose metadata URI is the part of the
/// request's URI before the first `::`.
pub proof fn lemma_mint_conversation(
    metadata_uri: Seq<char>,
    contract_address: Seq<char>,
    caller_cid: Seq<char>,
    address: String,
    mint_reply: Option<NftPortMintResponse>,
    nft_reply: Option<NftPortGetNftResponse>,
)
    ensures
        ({
            let start = spec_mint_start(metadata_uri, contract_address, caller_cid);
            let actions = conversation(start.0, start.1, address, mint_reply, nft_reply, 4);
            &&& actions.len() <= 5
            &&& actions.last() == mint_outcome(metadata_uri, mint_reply, nft_reply)
            &&& metadata_uri.len() == 0 ==> actions.len() == 1
            &&& is_first_segment(metadata_uri, first_segment_of(metadata_uri))
            &&& metadata_uri.len() != 0 ==> {
                &&& actions[0] == MintActionView::DeriveAddress { caller_cid }
                &&& actions[1] == MintActionView::PostMint {
                    url: "https://api.nftport.xyz/v0/mints/customizable"@,
                    body: MintRequestBodyView {
                        chain: "polygon"@,
                        contract_address,
                        metadata_uri: first_segment_of(metadata_uri),
                        mint_to_address: address@,
                    },
                }
            }
            &&& (metadata_uri.len() != 0 && mint_reply is Some && mint_reply->0.response@ == "OK"@)
                ==> {
                &&& actions.len() == 5
                &&& actions[2] == MintActionView::Wait { seconds: 45 }
                &&& actions[3] == MintActionView::GetNft {
                    url: "https://api.nftport.xyz/v0/mints/"@ + mint_reply->0.transaction_hash@
                        + "?chain=polygon"@,
                }
            }
        }),
{
    let start = spec_mint_start(metadata_uri, contract_address, caller_cid);
    lemma_first_segment_of(metadata_uri);
    reveal_with_fuel(conversation, 5);
    if metadata_uri.len() != 0 {
        let s1 = spec_mint_step(start.0, answer(start.1, address, mint_reply, nft_reply));
        let c1 = conversation(s1.0, s1.1, address, mint_reply, nft_reply, 3);
        assert(conversation(start.0, start.1, address, mint_reply, nft_reply, 4) == seq![start.1] + c1);
        if mint_reply is Some && mint_reply->0.response@ == NFTPORT_OK@ {
            let s2 = spec_mint_step(s1.0, answer(s1.1, address, mint_reply, nft_reply));
            let c2 = conversation(s2.0, s2.1, address, mint_reply, nft_reply, 2);
            assert(c1 == seq![s1.1] + c2);
            let s3 = spec_mint_step(s2.0, answer(s2.1, address, mint_reply, nft_reply));
            let c3 = conversation(s3.0, s3.1, address, mint_reply, nft_reply, 1);
            assert(c2 == seq![s2.1] + c3);
            let s4 = spec_mint_step(s3.0, answer(s3.1, address, mint_reply, nft_reply));
            assert(c3 == seq![s3.1] + seq![s4.1]);
        } else {
            let s2 = spec_mint_step(s1.0, answer(s1.1, address, mint_reply, nft_reply));
            assert(c1 == seq![s1.1] + seq![s2.1]);
        }
    }
}

/// After the confirmation wait for the transaction `tx_hash`, whatever its
/// length, the conversation asks NFTPort for the minted token at
/// `https://api.nftport.xyz/v0/mints/{tx_hash}?chain=polygon`, and goes on
/// waiting for that answer with the same hash.
pub proof fn lemma_token_request_url(tx_hash: Seq<char>)
    ensures
        spec_mint_step(MintStateView::Confirming { tx_hash }, MintEvent::WaitOver) == (
            MintStateView::AwaitingNft { tx_hash },
            MintActionView::GetNft {
                url: "https://api.nftport.xyz/v0/mints/"@ + tx_hash + "?chain=polygon"@,
            },
        ),
{
}

/// An `OK` mint reply with transaction hash `h` leads to a wait of 45 seconds
/// in the state that remembers `h`; any other reply ends the conversation as
/// the failure `("", "", 1)`.
pub proof fn lemma_mint_reply(reply: Option<NftPortMintResponse>)
    ensures
        (reply is Some && reply->0.response@ == "OK"@) ==> spec_mint_step(
            MintStateView::AwaitingMint,
            MintEvent::MintReplied { reply },
        ) == (
            MintStateView::Confirming { tx_hash: reply->0.transaction_hash@ },
            MintActionView::Wait { seconds: 45 },
        ),
        !(reply is Some && reply->0.response@ == "OK"@) ==> spec_mint_step(
            MintStateView::AwaitingMint,
            MintEvent::MintReplied { reply },
        ) == (
            MintStateView::Finished,
            MintActionView::Finish { tx_hash: Seq::empty(), token_id: Seq::empty(), status: 1 },
        ),
{
}

/// How many answers a conversation standing at `s` awaits at most.
pub open spec fn mint_rank(s: MintStateView) -> nat {
    match s {
        MintStateView::DerivingAddress { .. } => 4,
        MintStateView::AwaitingMint => 3,
        MintStateView::Confirming { .. } => 2,
        MintStateView::AwaitingNft { .. } => 1,
        MintStateView::Finished => 0,
    }
}

/// Every conversation ends, whatever NFTPort answers: each answered move
/// brings it nearer to `Finished`.
pub proof fn lemma_mint_ends(s: MintStateView, e: MintEvent)
    requires
        mint_accepts(s, e),
    ensures
        mint_rank(spec_mint_step(s, e).0) < mint_rank(s),
{
}

/// Every end of the conversation, from its start or from any move, is either
/// a success whose transaction hash begins with `0x` or the failure
/// `("", "", 1)`.
pub proof fn lemma_mint_finish_well_formed(s: MintStateView, e: MintEvent, metadata_uri: Seq<char>, contract_address: Seq<char>, caller_cid: Seq<char>)
    ensures
        well_formed_finish(spec_mint_step(s, e).1),
        well_formed_finish(spec_mint_start(metadata_uri, contract_address, caller_cid).1),
{
}

/// Opens the mint conversation for `asset_info`. An empty metadata URI ends
/// it at once, with the failure `("", "", 1)` and nothing sent.
pub fn mint_start(asset_info: &UpdateUserNftRequest) -> (res: (MintState, MintAction))
    ensures
        (res.0@, res.1@) == spec_mint_start(
            asset_info.metadata_uri@,
            asset_info.contract_address@,
            asset_info.caller_cid@,
        ),
        well_formed_finish(res.1@),
{
    if asset_info.metadata_uri.as_str().is_empty() {
        (MintState::Finished, finish_failed())
    } else {
        (
            MintState::DerivingAddress {
                metadata_uri: asset_info.metadata_uri.clone(),
                contract_address: asset_info.contract_address.clone(),
            },
            MintAction::DeriveAddress { caller_cid: asset_info.caller_cid.clone() },
        )
    }
}

/// The end of a failed conversation.
fn finish_failed() -> (a: MintAction)
    ensures
        a@ == mint_failed(),
{
    MintAction::Finish { tx_hash: String::new(), token_id: String::new(), status: 1 }
}

impl MintState {
    /// Whether `event` is the answer this state waits for.
    pub fn accepts(&self, event: &MintEvent) -> (b: bool)
        ensures
            b == mint_accepts(self@, *event),
    {
        match self {
            MintState::DerivingAddress { .. } => matches!(event, MintEvent::AddressDerived { .. }),
            MintState::AwaitingMint => matches!(event, MintEvent::MintReplied { .. }),
            MintState::Confirming { .. } => matches!(event, MintEvent::WaitOver),
            MintState::AwaitingNft { .. } => matches!(event, MintEvent::NftReplied { .. }),
            MintState::Finished => false,
        }
    }
}

/// Moves the mint conversation on by the answer `event`.
///
/// A mint reply other than `OK`, or a body that was not a reply, ends the
/// conversation with `("", "", 1)`; so does a transaction hash that does not
/// begin with `0x`. Otherwise the result is the transaction hash, the token id
/// when NFTPort's token answer is `OK` (else the empty text), and status 0.
pub fn mint_step(state: MintState, event: MintEvent) -> (res: (MintState, MintAction))
    requires
        mint_accepts(state@, event),
    ensures
        (res.0@, res.1@) == spec_mint_step(state@, event),
        well_formed_finish(res.1@),
        res.1@ is Finish <==> res.0@ is Finished,
{
    match state {
        MintState::DerivingAddress { metadata_uri, contract_address } => match event {
            MintEvent::AddressDerived { address } => {
                let ipfs_uri = first_segment(metadata_uri.as_str());
                proof {
                    lemma_first_segment_of(metadata_uri@);
                    lemma_first_segment_unique(metadata_uri@, ipfs_uri@, first_segment_of(metadata_uri@));
                }
                let body = MintRequestBody {
                    chain: MINT_CHAIN.to_owned(),
                    contract_address,
                    metadata_uri: ipfs_uri,
                    mint_to_address: address,
                };
                (MintState::AwaitingMint, MintAction::PostMint { url: MINT_ENDPOINT.to_owned(), body })
            },
            _ => (MintState::Finished, finish_failed()),
        },
        MintState::AwaitingMint => match event {
            MintEvent::MintReplied { reply } => match reply {
                Some(r) => {
                    if same_text(r.response.as_str(), NFTPORT_OK) {
                        (
                            MintState::Confirming { tx_hash: r.transaction_hash },
                            MintAction::Wait { seconds: CONFIRMATION_WAIT_SECS },
                        )
                    } else {
                        (MintState::Finished, finish_failed())
                    }
                },
                None => (MintState::Finished, finish_failed()),
            },
            _ => (MintState::Finished, finish_failed()),
        },
        MintState::Confirming { tx_hash } => match event {
            MintEvent::WaitOver => {
                let url = concat3(NFT_INFO_PREFIX, tx_hash.as_str(), NFT_INFO_SUFFIX);
                (MintState::AwaitingNft { tx_hash }, MintAction::GetNft { url })
            },
            _ => (MintState::Finished, finish_failed()),
        },
        MintState::AwaitingNft { tx_hash } => match event {
            MintEvent::NftReplied { reply } => match reply {
                Some(n) => {
                    if starts_with_hex_prefix(tx_hash.as_str()) {
                        let token_id = if same_text(n.response.as_str(), NFTPORT_OK) {
                            n.token_id
                        } else {
                            String::new()
                        };
                        (MintState::Finished, MintAction::Finish { tx_hash, token_id, status: 0 })
                    } else {
                        (MintState::Finished, finish_failed())
                    }
                },
                None => (MintState::Finished, finish_failed()),
            },
            _ => (MintState::Finished, finish_failed()),
        },
        MintState::Finished => (MintState::Finished, finish_failed()),
    }
}

} // verus!
