use mints_worker::mint::{
    mint_start, mint_step, MintAction, MintEvent, MintState, NftPortGetNftResponse,
    NftPortMintResponse, UpdateUserNftRequest, CONFIRMATION_WAIT_SECS, MINT_ENDPOINT,
};

fn request(metadata_uri: &str) -> UpdateUserNftRequest {
    UpdateUserNftRequest {
        caller_cid: "02abcdef".to_string(),
        col_id: 3,
        buyer_screen_cid: None,
        transfer_to_screen_cid: None,
        amount: 100,
        nft_id: 9,
        event_type: "mint".to_string(),
        contract_address: "0xc0ffee".to_string(),
        current_owner_screen_cid: "owner".to_string(),
        metadata_uri: metadata_uri.to_string(),
        extra: Some("{\"k\":1}".to_string()),
        attributes: None,
        onchain_id: None,
        nft_name: "name".to_string(),
        is_minted: Some(false),
        nft_description: "desc".to_string(),
        current_price: Some(5),
        is_listed: None,
        freeze_metadata: None,
        comments: None,
        likes: None,
        tx_hash: None,
        tx_signature: "sig".to_string(),
        hash_data: "hash".to_string(),
    }
}

fn mint_reply(response: &str, tx_hash: &str) -> NftPortMintResponse {
    NftPortMintResponse {
        response: response.to_string(),
        chain: "polygon".to_string(),
        contract_address: "0xc0ffee".to_string(),
        transaction_hash: tx_hash.to_string(),
        transaction_external_url: "https://polygonscan.com/tx/x".to_string(),
        metadata_uri: "ipfs://bafy".to_string(),
        mint_to_address: "0xowner".to_string(),
    }
}

fn nft_reply(response: &str, token_id: &str) -> NftPortGetNftResponse {
    NftPortGetNftResponse {
        response: response.to_string(),
        chain: "polygon".to_string(),
        contract_address: "0xc0ffee".to_string(),
        token_id: token_id.to_string(),
    }
}

fn finish(a: &MintAction) -> (String, String, u8) {
    match a {
        MintAction::Finish { tx_hash, token_id, status } => (tx_hash.clone(), token_id.clone(), *status),
        _ => panic!("the conversation should have ended"),
    }
}

/// Runs the conversation, answering each action from the given replies.
fn converse(
    asset: &UpdateUserNftRequest,
    mint: Option<NftPortMintResponse>,
    nft: Option<NftPortGetNftResponse>,
) -> (Vec<String>, (String, String, u8)) {
    let (mut state, mut action) = mint_start(asset);
    let mut mint = Some(mint);
    let mut nft = Some(nft);
    let mut urls = Vec::new();
    loop {
        let event = match &action {
            MintAction::DeriveAddress { .. } => MintEvent::AddressDerived { address: "0xabc123".to_string() },
            MintAction::PostMint { url, .. } => {
                urls.push(url.clone());
                MintEvent::MintReplied { reply: mint.take().unwrap() }
            }
            MintAction::Wait { .. } => MintEvent::WaitOver,
            MintAction::GetNft { url } => {
                urls.push(url.clone());
                MintEvent::NftReplied { reply: nft.take().unwrap() }
            }
            MintAction::Finish { .. } => return (urls, finish(&action)),
        };
        assert!(state.accepts(&event));
        let next = mint_step(state, event);
        state = next.0;
        action = next.1;
    }
}

#[test]
fn empty_metadata_uri_fails_without_any_request() {
    let (state, action) = mint_start(&request(""));
    assert!(matches!(state, MintState::Finished));
    assert_eq!(finish(&action), (String::new(), String::new(), 1));
}

#[test]
fn opening_asks_for_the_callers_address() {
    let (state, action) = mint_start(&request("ipfs://bafy::/img.png"));
    assert!(matches!(state, MintState::DerivingAddress { .. }));
    match action {
        MintAction::DeriveAddress { caller_cid } => assert_eq!(caller_cid, "02abcdef"),
        _ => panic!("expected an address derivation"),
    }
}

#[test]
fn mint_request_carries_the_ipfs_part_of_the_uri() {
    let (state, _) = mint_start(&request("ipfs://bafy/meta.json::/srv/img/7.png"));
    let (state, action) = mint_step(state, MintEvent::AddressDerived { address: "0xabc123".to_string() });
    assert!(matches!(state, MintState::AwaitingMint));
    match action {
        MintAction::PostMint { url, body } => {
            assert_eq!(url, MINT_ENDPOINT);
            assert_eq!(url, "https://api.nftport.xyz/v0/mints/customizable");
            assert_eq!(body.chain, "polygon");
            assert_eq!(body.contract_address, "0xc0ffee");
            assert_eq!(body.metadata_uri, "ipfs://bafy/meta.json");
            assert_eq!(body.mint_to_address, "0xabc123");
        }
        _ => panic!("expected a mint request"),
    }
}

#[test]
fn successful_mint_gives_hash_token_and_status_zero() {
    let (urls, outcome) = converse(
        &request("ipfs://bafy::/img.png"),
        Some(mint_reply("OK", "0xdeadbeef")),
        Some(nft_reply("OK", "42")),
    );
    assert_eq!(outcome, ("0xdeadbeef".to_string(), "42".to_string(), 0));
    assert_eq!(
        urls,
        vec![
            "https://api.nftport.xyz/v0/mints/customizable".to_string(),
            "https://api.nftport.xyz/v0/mints/0xdeadbeef?chain=polygon".to_string(),
        ]
    );
}

#[test]
fn confirmation_wait_is_forty_five_seconds() {
    let (state, _) = mint_start(&request("ipfs://bafy"));
    let (state, _) = mint_step(state, MintEvent::AddressDerived { address: "0x1".to_string() });
    let (state, action) =
        mint_step(state, MintEvent::MintReplied { reply: Some(mint_reply("OK", "0x99")) });
    assert!(matches!(state, MintState::Confirming { .. }));
    assert!(matches!(action, MintAction::Wait { seconds: 45 }));
    assert_eq!(CONFIRMATION_WAIT_SECS, 45);
}

#[test]
fn token_answer_other_than_ok_keeps_the_hash_without_token() {
    let (_, outcome) = converse(
        &request("ipfs://bafy"),
        Some(mint_reply("OK", "0x01")),
        Some(nft_reply("NOT_FOUND", "42")),
    );
    assert_eq!(outcome, ("0x01".to_string(), String::new(), 0));
}

#[test]
fn unreadable_token_answer_fails() {
    let (_, outcome) = converse(&request("ipfs://bafy"), Some(mint_reply("OK", "0x01")), None);
    assert_eq!(outcome, (String::new(), String::new(), 1));
}

#[test]
fn unreadable_mint_answer_fails() {
    let (urls, outcome) = converse(&request("ipfs://bafy"), None, None);
    assert_eq!(outcome, (String::new(), String::new(), 1));
    assert_eq!(urls.len(), 1);
}

#[test]
fn mint_answer_other_than_ok_fails() {
    let (urls, outcome) = converse(&request("ipfs://bafy"), Some(mint_reply("NOK", "0x01")), None);
    assert_eq!(outcome, (String::new(), String::new(), 1));
    assert_eq!(urls.len(), 1);
}

#[test]
fn hash_without_0x_fails_after_asking_for_the_token() {
    let (urls, outcome) = converse(
        &request("ipfs://bafy"),
        Some(mint_reply("OK", "deadbeef")),
        Some(nft_reply("OK", "42")),
    );
    assert_eq!(outcome, (String::new(), String::new(), 1));
    assert_eq!(urls.len(), 2);
}

#[test]
fn states_accept_only_their_own_answer() {
    let (state, _) = mint_start(&request("ipfs://bafy"));
    assert!(!state.accepts(&MintEvent::WaitOver));
    assert!(!state.accepts(&MintEvent::MintReplied { reply: None }));
    assert!(state.accepts(&MintEvent::AddressDerived { address: String::new() }));
    let (finished, _) = mint_start(&request(""));
    assert!(!finished.accepts(&MintEvent::WaitOver));
    assert!(!finished.accepts(&MintEvent::NftReplied { reply: None }));
}

#[test]
fn duplicate_copies_every_field() {
    let r = request("ipfs://bafy");
    let d = r.duplicate();
    assert_eq!(format!("{:?}", r), format!("{:?}", d));
}
