use shitpost_pro::instructions::burn::{
    burned_uri, count_burn, handler, handler_to_waste, holds_one, ArtBurned, BurnError, BurnNft,
    BurnNftBumps, BurnToWaste, BurnToWasteBumps, BurnedToSacredWaste, TokenAccount,
};
use shitpost_pro::pubkey::Pubkey;
use shitpost_pro::service::{settle, ServiceCall, ServiceFailed, ServiceReply};
use shitpost_pro::state::{
    BurnedArt, BurnerStats, CollectionConfig, PitBurnRecord, SacredWastePit,
};

fn key(n: u8) -> Pubkey {
    Pubkey::new_from_array([n; 32])
}

const BURNER: u8 = 20;
const MINT: u8 = 21;
const TOKEN_ACCOUNT: u8 = 22;
const PIT: u8 = 23;

fn config(total_burned: u64, pit: Option<Pubkey>) -> CollectionConfig {
    CollectionConfig {
        authority: key(1),
        name: String::from("Shitposts"),
        symbol: String::from("SHIT"),
        uri: String::from("ipfs://collection"),
        treasury: key(2),
        premium_fee: 1000,
        total_minted: 10,
        total_burned,
        sacred_waste_pit: pit,
        bump: 254,
    }
}

fn holding(amount: u64) -> TokenAccount {
    TokenAccount { key: key(TOKEN_ACCOUNT), mint: key(MINT), owner: key(BURNER), amount }
}

fn burn_ctx(amount: u64, total_burned: u64) -> BurnNft {
    BurnNft {
        burner: key(BURNER),
        collection_config: config(total_burned, None),
        mint: key(MINT),
        token_account: holding(amount),
        burned_art: None,
        bumps: BurnNftBumps { burned_art: 250 },
    }
}

fn waste_ctx(pit_link: Option<Pubkey>, amount: u64, stats: Option<BurnerStats>) -> BurnToWaste {
    BurnToWaste {
        burner: key(BURNER),
        collection_config: config(2, pit_link),
        sacred_waste_pit: SacredWastePit { authority: key(3), total_burns: 5, bump: 252 },
        mint: key(MINT),
        token_account: holding(amount),
        burned_art: None,
        pit_burn_record: None,
        burner_stats: stats,
        bumps: BurnToWasteBumps { burned_art: 250, pit_burn_record: 249, burner_stats: 248 },
    }
}

fn expected_art() -> BurnedArt {
    BurnedArt {
        artist: key(BURNER),
        token_uri: String::from("ipfs://burned"),
        burned_at: 1_700_000_000,
        original_mint: key(MINT),
        bump: 250,
    }
}

fn assert_burn_calls(calls: &[ServiceCall]) {
    assert_eq!(calls.len(), 2);
    match &calls[0] {
        ServiceCall::Burn { mint, from, authority, amount } => {
            assert_eq!(*mint, key(MINT));
            assert_eq!(*from, key(TOKEN_ACCOUNT));
            assert_eq!(*authority, key(BURNER));
            assert_eq!(*amount, 1);
        }
        other => panic!("unexpected call {:?}", other),
    }
    match &calls[1] {
        ServiceCall::CloseAccount { account, destination, authority } => {
            assert_eq!(*account, key(TOKEN_ACCOUNT));
            assert_eq!(*destination, key(BURNER));
            assert_eq!(*authority, key(BURNER));
        }
        other => panic!("unexpected call {:?}", other),
    }
}

#[test]
fn burned_uri_is_the_fixed_one() {
    assert_eq!(burned_uri(), "ipfs://burned");
}

#[test]
fn holds_one_needs_owner_token_and_exactly_one_unit() {
    assert!(holds_one(&holding(1), &key(BURNER), &key(MINT)));
    assert!(!holds_one(&holding(0), &key(BURNER), &key(MINT)));
    assert!(!holds_one(&holding(2), &key(BURNER), &key(MINT)));
    assert!(!holds_one(&holding(u64::MAX), &key(BURNER), &key(MINT)));
    assert!(!holds_one(&holding(1), &key(99), &key(MINT)));
    assert!(!holds_one(&holding(1), &key(BURNER), &key(99)));
}

#[test]
fn burn_of_exactly_one_unit_succeeds_and_counts_one() {
    let mut ctx = burn_ctx(1, 4);
    let receipt = handler(&mut ctx, 1_700_000_000).unwrap();
    assert_eq!(ctx.collection_config, config(5, None));
    assert_eq!(ctx.burned_art, Some(expected_art()));
    assert_eq!(
        receipt.event,
        ArtBurned {
            artist: key(BURNER),
            token_uri: String::from("ipfs://burned"),
            mint: key(MINT),
        }
    );
    assert_burn_calls(&receipt.calls);
}

#[test]
fn burn_of_an_empty_account_is_not_owner() {
    let mut ctx = burn_ctx(0, 4);
    assert_eq!(handler(&mut ctx, 1).err(), Some(BurnError::NotOwner));
    assert_eq!(ctx.collection_config, config(4, None));
    assert_eq!(ctx.burned_art, None);
}

#[test]
fn burn_of_an_account_with_two_or_more_units_is_not_owner() {
    for amount in [2u64, 3, 1000, u64::MAX] {
        let mut ctx = burn_ctx(amount, 4);
        assert_eq!(handler(&mut ctx, 1).err(), Some(BurnError::NotOwner));
        assert_eq!(ctx.collection_config.total_burned, 4);
        assert_eq!(ctx.burned_art, None);
    }
}

#[test]
fn burn_from_an_account_of_another_owner_or_token_is_not_owner() {
    let mut other_owner = burn_ctx(1, 4);
    other_owner.token_account.owner = key(99);
    assert_eq!(handler(&mut other_owner, 1).err(), Some(BurnError::NotOwner));
    let mut other_token = burn_ctx(1, 4);
    other_token.token_account.mint = key(99);
    assert_eq!(handler(&mut other_token, 1).err(), Some(BurnError::NotOwner));
}

#[test]
fn burn_at_the_largest_counter_is_math_overflow() {
    let mut ctx = burn_ctx(1, u64::MAX);
    assert_eq!(handler(&mut ctx, 1).err(), Some(BurnError::MathOverflow));
    assert_eq!(ctx.collection_config, config(u64::MAX, None));
    assert_eq!(ctx.burned_art, None);
}

#[test]
fn burn_reports_not_owner_before_math_overflow() {
    let mut ctx = burn_ctx(0, u64::MAX);
    assert_eq!(handler(&mut ctx, 1).err(), Some(BurnError::NotOwner));
}

#[test]
fn burn_takes_a_negative_timestamp_as_it_is() {
    let mut ctx = burn_ctx(1, 0);
    handler(&mut ctx, -5).unwrap();
    assert_eq!(ctx.burned_art.unwrap().burned_at, -5);
}

#[test]
fn burn_whose_close_request_fails_changes_nothing() {
    let before = burn_ctx(1, 4);
    let mut ctx = before.clone();
    let receipt = handler(&mut ctx, 1).unwrap();
    let (state, event) =
        settle(before, ctx, receipt, &vec![ServiceReply::Done, ServiceReply::Failed]);
    assert_eq!(event, Err(ServiceFailed));
    assert_eq!(state.collection_config.total_burned, 4);
    assert_eq!(state.burned_art, None);
}

#[test]
fn count_burn_creates_statistics_on_the_first_burn() {
    assert_eq!(
        count_burn(&None, &key(BURNER), 248),
        Some(BurnerStats { burner: key(BURNER), burn_count: 1, bump: 248 })
    );
}

#[test]
fn count_burn_adds_one_and_keeps_burner_and_bump() {
    let held = BurnerStats { burner: key(BURNER), burn_count: 41, bump: 7 };
    assert_eq!(
        count_burn(&Some(held), &key(99), 248),
        Some(BurnerStats { burner: key(BURNER), burn_count: 42, bump: 7 })
    );
}

#[test]
fn count_burn_refuses_at_the_largest_count() {
    let held = BurnerStats { burner: key(BURNER), burn_count: u64::MAX, bump: 7 };
    assert_eq!(count_burn(&Some(held), &key(BURNER), 248), None);
    let below = BurnerStats { burner: key(BURNER), burn_count: u64::MAX - 1, bump: 7 };
    assert_eq!(count_burn(&Some(below), &key(BURNER), 248).unwrap().burn_count, u64::MAX);
}

#[test]
fn burn_to_waste_without_pit_link_is_pit_not_configured() {
    let mut ctx = waste_ctx(None, 1, None);
    let before = ctx.clone();
    assert_eq!(handler_to_waste(&mut ctx, 1).err(), Some(BurnError::PitNotConfigured));
    assert_eq!(ctx.collection_config, before.collection_config);
    assert_eq!(ctx.sacred_waste_pit, before.sacred_waste_pit);
    assert_eq!(ctx.pit_burn_record, None);
    assert_eq!(ctx.burner_stats, None);
}

#[test]
fn burn_to_waste_without_pit_link_fails_whatever_the_caller_holds() {
    for amount in [0u64, 1, 2, u64::MAX] {
        let mut ctx = waste_ctx(None, amount, None);
        assert_eq!(handler_to_waste(&mut ctx, 1).err(), Some(BurnError::PitNotConfigured));
    }
    let mut stranger = waste_ctx(None, 1, None);
    stranger.token_account.owner = key(99);
    assert_eq!(handler_to_waste(&mut stranger, 1).err(), Some(BurnError::PitNotConfigured));
    let mut full = waste_ctx(None, 1, None);
    full.collection_config.total_burned = u64::MAX;
    assert_eq!(handler_to_waste(&mut full, 1).err(), Some(BurnError::PitNotConfigured));
}

#[test]
fn burn_to_waste_needs_exactly_one_unit() {
    for amount in [0u64, 2, 7] {
        let mut ctx = waste_ctx(Some(key(PIT)), amount, None);
        assert_eq!(handler_to_waste(&mut ctx, 1).err(), Some(BurnError::NotOwner));
        assert_eq!(ctx.sacred_waste_pit.total_burns, 5);
        assert_eq!(ctx.collection_config.total_burned, 2);
    }
}

#[test]
fn burn_to_waste_records_the_burn_under_the_pits_number() {
    let mut ctx = waste_ctx(Some(key(PIT)), 1, None);
    let receipt = handler_to_waste(&mut ctx, 1_700_000_000).unwrap();
    assert_eq!(
        receipt.event,
        BurnedToSacredWaste { artist: key(BURNER), burn_id: 5, mint: key(MINT) }
    );
    assert_burn_calls(&receipt.calls);
    assert_eq!(ctx.collection_config, config(3, Some(key(PIT))));
    assert_eq!(
        ctx.sacred_waste_pit,
        SacredWastePit { authority: key(3), total_burns: 6, bump: 252 }
    );
    assert_eq!(ctx.burned_art, Some(expected_art()));
    assert_eq!(
        ctx.pit_burn_record,
        Some(PitBurnRecord {
            burner: key(BURNER),
            metadata: String::from("ipfs://burned"),
            timestamp: 1_700_000_000,
            burn_id: 5,
            bump: 249,
        })
    );
    assert_eq!(
        ctx.burner_stats,
        Some(BurnerStats { burner: key(BURNER), burn_count: 1, bump: 248 })
    );
}

#[test]
fn burn_to_waste_adds_to_existing_statistics() {
    let held = BurnerStats { burner: key(BURNER), burn_count: 9, bump: 100 };
    let mut ctx = waste_ctx(Some(key(PIT)), 1, Some(held));
    handler_to_waste(&mut ctx, 1).unwrap();
    assert_eq!(
        ctx.burner_stats,
        Some(BurnerStats { burner: key(BURNER), burn_count: 10, bump: 100 })
    );
}

#[test]
fn burn_to_waste_checks_each_counter() {
    let full_stats = BurnerStats { burner: key(BURNER), burn_count: u64::MAX, bump: 100 };
    let mut stats = waste_ctx(Some(key(PIT)), 1, Some(full_stats));
    let before = stats.clone();
    assert_eq!(handler_to_waste(&mut stats, 1).err(), Some(BurnError::MathOverflow));
    assert_eq!(stats.burner_stats, before.burner_stats);
    assert_eq!(stats.sacred_waste_pit, before.sacred_waste_pit);
    assert_eq!(stats.collection_config, before.collection_config);
    assert_eq!(stats.pit_burn_record, None);

    let mut registry = waste_ctx(Some(key(PIT)), 1, None);
    registry.collection_config.total_burned = u64::MAX;
    assert_eq!(handler_to_waste(&mut registry, 1).err(), Some(BurnError::MathOverflow));
    assert_eq!(registry.sacred_waste_pit.total_burns, 5);
    assert_eq!(registry.burner_stats, None);

    let mut pit = waste_ctx(Some(key(PIT)), 1, None);
    pit.sacred_waste_pit.total_burns = u64::MAX;
    assert_eq!(handler_to_waste(&mut pit, 1).err(), Some(BurnError::MathOverflow));
    assert_eq!(pit.collection_config.total_burned, 2);
    assert_eq!(pit.burner_stats, None);
    assert_eq!(pit.burned_art, None);
}
