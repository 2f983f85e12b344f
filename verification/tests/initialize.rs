use shitpost_pro::instructions::initialize::{handler, ErrorCode, Initialize, InitializeBumps};
use shitpost_pro::pubkey::Pubkey;
use shitpost_pro::state::CollectionConfig;

fn key(n: u8) -> Pubkey {
    Pubkey::new_from_array([n; 32])
}

fn ctx() -> Initialize {
    Initialize {
        authority: key(1),
        collection_config: None,
        bumps: InitializeBumps { collection_config: 253 },
    }
}

fn run(name: &str, symbol: &str, uri: &str) -> (Initialize, Result<(), ErrorCode>) {
    let mut ctx = ctx();
    let result = handler(
        &mut ctx,
        String::from(name),
        String::from(symbol),
        String::from(uri),
        key(2),
        1000,
    );
    (ctx, result)
}

#[test]
fn initialize_creates_the_registry() {
    let (ctx, result) = run("Shitposts", "SHIT", "ipfs://collection");
    assert_eq!(result, Ok(()));
    assert_eq!(
        ctx.collection_config,
        Some(CollectionConfig {
            authority: key(1),
            name: String::from("Shitposts"),
            symbol: String::from("SHIT"),
            uri: String::from("ipfs://collection"),
            treasury: key(2),
            premium_fee: 1000,
            total_minted: 0,
            total_burned: 0,
            sacred_waste_pit: None,
            bump: 253,
        })
    );
    assert_eq!(ctx.authority, key(1));
}

#[test]
fn initialize_accepts_strings_at_their_bounds() {
    let (ctx, result) = run(&"n".repeat(32), &"s".repeat(10), &"u".repeat(200));
    assert_eq!(result, Ok(()));
    assert!(ctx.collection_config.is_some());
}

#[test]
fn initialize_accepts_empty_strings() {
    let (ctx, result) = run("", "", "");
    assert_eq!(result, Ok(()));
    assert_eq!(ctx.collection_config.unwrap().name, "");
}

#[test]
fn initialize_rejects_a_name_of_thirty_three_bytes() {
    let (ctx, result) = run(&"n".repeat(33), "SHIT", "ipfs://collection");
    assert_eq!(result, Err(ErrorCode::NameTooLong));
    assert_eq!(ctx.collection_config, None);
}

#[test]
fn initialize_rejects_a_symbol_of_eleven_bytes() {
    let (ctx, result) = run("Shitposts", &"s".repeat(11), "ipfs://collection");
    assert_eq!(result, Err(ErrorCode::SymbolTooLong));
    assert_eq!(ctx.collection_config, None);
}

#[test]
fn initialize_rejects_a_uri_of_two_hundred_and_one_bytes() {
    let (ctx, result) = run("Shitposts", "SHIT", &"u".repeat(201));
    assert_eq!(result, Err(ErrorCode::UriTooLong));
    assert_eq!(ctx.collection_config, None);
}

#[test]
fn initialize_measures_strings_in_bytes() {
    // Seventeen two-byte characters are thirty-four bytes.
    let (_, result) = run(&"é".repeat(17), "SHIT", "ipfs://collection");
    assert_eq!(result, Err(ErrorCode::NameTooLong));
    let (_, fits) = run(&"é".repeat(16), "SHIT", "ipfs://collection");
    assert_eq!(fits, Ok(()));
}

#[test]
fn initialize_reports_the_first_string_that_is_too_long() {
    let (_, all) = run(&"n".repeat(33), &"s".repeat(11), &"u".repeat(201));
    assert_eq!(all, Err(ErrorCode::NameTooLong));
    let (_, later) = run("Shitposts", &"s".repeat(11), &"u".repeat(201));
    assert_eq!(later, Err(ErrorCode::SymbolTooLong));
}
