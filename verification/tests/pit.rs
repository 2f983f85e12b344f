use shitpost_pro::instructions::pit::{
    handler_authorize, handler_deposit, handler_init, may_deposit, AuthorizeProgram,
    AuthorizeProgramBumps, BurnDeposited, DepositBurn, DepositBurnBumps, InitializePit,
    InitializePitBumps, PitError,
};
use shitpost_pro::pubkey::Pubkey;
use shitpost_pro::state::{AuthorizedProgram, BurnerStats, PitBurnRecord, SacredWastePit};

fn key(n: u8) -> Pubkey {
    Pubkey::new_from_array([n; 32])
}

const AUTHORITY: u8 = 30;
const CALLER: u8 = 31;
const BURNER: u8 = 32;

fn pit(total_burns: u64) -> SacredWastePit {
    SacredWastePit { authority: key(AUTHORITY), total_burns, bump: 252 }
}

fn entry(of: u8, is_authorized: bool) -> Option<AuthorizedProgram> {
    Some(AuthorizedProgram { program_id: key(of), is_authorized, bump: 200 })
}

fn deposit_ctx(
    total_burns: u64,
    entry: Option<AuthorizedProgram>,
    stats: Option<BurnerStats>,
) -> DepositBurn {
    DepositBurn {
        caller: key(CALLER),
        sacred_waste_pit: pit(total_burns),
        authorized_program: entry,
        pit_burn_record: None,
        burner_stats: stats,
        bumps: DepositBurnBumps { pit_burn_record: 249, burner_stats: 248 },
    }
}

#[test]
fn initialize_pit_makes_the_caller_authority_of_an_empty_pit() {
    let mut ctx = InitializePit {
        authority: key(AUTHORITY),
        sacred_waste_pit: None,
        bumps: InitializePitBumps { sacred_waste_pit: 252 },
    };
    handler_init(&mut ctx);
    assert_eq!(ctx.sacred_waste_pit, Some(pit(0)));
    assert_eq!(ctx.authority, key(AUTHORITY));
}

#[test]
fn may_deposit_needs_an_entry_of_the_caller_that_is_switched_on() {
    assert!(may_deposit(&entry(CALLER, true), &key(CALLER)));
    assert!(!may_deposit(&entry(CALLER, false), &key(CALLER)));
    assert!(!may_deposit(&None, &key(CALLER)));
    assert!(!may_deposit(&entry(99, true), &key(CALLER)));
}

#[test]
fn deposit_without_entry_is_unauthorized_and_leaves_the_pit() {
    let mut ctx = deposit_ctx(5, None, None);
    let result = handler_deposit(&mut ctx, key(BURNER), String::from("meta"), 1);
    assert_eq!(result, Err(PitError::Unauthorized));
    assert_eq!(ctx.sacred_waste_pit, pit(5));
    assert_eq!(ctx.pit_burn_record, None);
    assert_eq!(ctx.burner_stats, None);
}

#[test]
fn deposit_with_entry_switched_off_is_unauthorized_and_leaves_the_pit() {
    let mut ctx = deposit_ctx(5, entry(CALLER, false), None);
    let result = handler_deposit(&mut ctx, key(BURNER), String::from("meta"), 1);
    assert_eq!(result, Err(PitError::Unauthorized));
    assert_eq!(ctx.sacred_waste_pit.total_burns, 5);
    assert_eq!(ctx.pit_burn_record, None);
}

#[test]
fn deposit_with_the_entry_of_another_caller_is_unauthorized() {
    let mut ctx = deposit_ctx(5, entry(99, true), None);
    let result = handler_deposit(&mut ctx, key(BURNER), String::from("meta"), 1);
    assert_eq!(result, Err(PitError::Unauthorized));
    assert_eq!(ctx.sacred_waste_pit.total_burns, 5);
}

#[test]
fn deposit_by_authorized_caller_records_the_burn() {
    let mut ctx = deposit_ctx(5, entry(CALLER, true), None);
    let result = handler_deposit(&mut ctx, key(BURNER), String::from("meta"), 1_700_000_000);
    assert_eq!(
        result,
        Ok(BurnDeposited { burn_id: 5, burner: key(BURNER), timestamp: 1_700_000_000 })
    );
    assert_eq!(ctx.sacred_waste_pit, pit(6));
    assert_eq!(
        ctx.pit_burn_record,
        Some(PitBurnRecord {
            burner: key(BURNER),
            metadata: String::from("meta"),
            timestamp: 1_700_000_000,
            burn_id: 5,
            bump: 249,
        })
    );
    assert_eq!(
        ctx.burner_stats,
        Some(BurnerStats { burner: key(BURNER), burn_count: 1, bump: 248 })
    );
    assert_eq!(ctx.authorized_program, entry(CALLER, true));
}

#[test]
fn deposit_credits_the_burner_not_the_caller() {
    let mut ctx = deposit_ctx(0, entry(CALLER, true), None);
    handler_deposit(&mut ctx, key(BURNER), String::new(), 1).unwrap();
    assert_eq!(ctx.burner_stats.unwrap().burner, key(BURNER));
    assert_eq!(ctx.pit_burn_record.unwrap().burner, key(BURNER));
}

#[test]
fn deposit_adds_to_existing_statistics() {
    let held = BurnerStats { burner: key(BURNER), burn_count: 3, bump: 100 };
    let mut ctx = deposit_ctx(5, entry(CALLER, true), Some(held));
    handler_deposit(&mut ctx, key(BURNER), String::from("meta"), 1).unwrap();
    assert_eq!(
        ctx.burner_stats,
        Some(BurnerStats { burner: key(BURNER), burn_count: 4, bump: 100 })
    );
}

#[test]
fn deposit_takes_metadata_of_two_hundred_bytes() {
    let mut ctx = deposit_ctx(5, entry(CALLER, true), None);
    let result = handler_deposit(&mut ctx, key(BURNER), "m".repeat(200), 1);
    assert!(result.is_ok());
    assert_eq!(ctx.pit_burn_record.unwrap().metadata.len(), 200);
}

#[test]
fn deposit_with_metadata_of_two_hundred_and_one_bytes_is_too_long() {
    let mut ctx = deposit_ctx(5, entry(CALLER, true), None);
    let result = handler_deposit(&mut ctx, key(BURNER), "m".repeat(201), 1);
    assert_eq!(result, Err(PitError::MetadataTooLong));
    assert_eq!(ctx.sacred_waste_pit, pit(5));
    assert_eq!(ctx.pit_burn_record, None);
    assert_eq!(ctx.burner_stats, None);
}

#[test]
fn deposit_measures_metadata_in_bytes() {
    let mut ctx = deposit_ctx(5, entry(CALLER, true), None);
    // Fifty-one four-byte characters are two hundred and four bytes.
    let result = handler_deposit(&mut ctx, key(BURNER), "💩".repeat(51), 1);
    assert_eq!(result, Err(PitError::MetadataTooLong));
    let fits = handler_deposit(&mut ctx, key(BURNER), "💩".repeat(50), 1);
    assert!(fits.is_ok());
}

#[test]
fn deposit_reports_unauthorized_before_metadata_too_long() {
    let mut ctx = deposit_ctx(5, None, None);
    let result = handler_deposit(&mut ctx, key(BURNER), "m".repeat(201), 1);
    assert_eq!(result, Err(PitError::Unauthorized));
}

#[test]
fn deposit_checks_each_counter() {
    let mut full_pit = deposit_ctx(u64::MAX, entry(CALLER, true), None);
    let result = handler_deposit(&mut full_pit, key(BURNER), String::from("meta"), 1);
    assert_eq!(result, Err(PitError::MathOverflow));
    assert_eq!(full_pit.sacred_waste_pit, pit(u64::MAX));
    assert_eq!(full_pit.burner_stats, None);
    assert_eq!(full_pit.pit_burn_record, None);

    let held = BurnerStats { burner: key(BURNER), burn_count: u64::MAX, bump: 100 };
    let mut full_stats = deposit_ctx(5, entry(CALLER, true), Some(held));
    let result = handler_deposit(&mut full_stats, key(BURNER), String::from("meta"), 1);
    assert_eq!(result, Err(PitError::MathOverflow));
    assert_eq!(full_stats.sacred_waste_pit, pit(5));
    assert_eq!(full_stats.burner_stats, Some(held));
}

#[test]
fn two_authorized_callers_deposit_one_after_the_other() {
    let (a, b) = (key(40), key(41));
    let mut first = DepositBurn {
        caller: a,
        sacred_waste_pit: pit(0),
        authorized_program: Some(AuthorizedProgram { program_id: a, is_authorized: true, bump: 1 }),
        pit_burn_record: None,
        burner_stats: None,
        bumps: DepositBurnBumps { pit_burn_record: 249, burner_stats: 248 },
    };
    let by_a = handler_deposit(&mut first, a, String::from("from a"), 10).unwrap();
    let mut second = DepositBurn {
        caller: b,
        sacred_waste_pit: first.sacred_waste_pit,
        authorized_program: Some(AuthorizedProgram { program_id: b, is_authorized: true, bump: 2 }),
        pit_burn_record: None,
        burner_stats: None,
        bumps: DepositBurnBumps { pit_burn_record: 247, burner_stats: 246 },
    };
    let by_b = handler_deposit(&mut second, b, String::from("from b"), 11).unwrap();
    assert_eq!(second.sacred_waste_pit.total_burns, 2);
    assert_eq!(by_a.burn_id, 0);
    assert_eq!(by_b.burn_id, 1);
    assert_eq!(first.pit_burn_record.unwrap().burn_id, 0);
    assert_eq!(second.pit_burn_record.unwrap().burn_id, 1);
    assert_eq!(first.burner_stats.unwrap().burn_count, 1);
    assert_eq!(second.burner_stats.unwrap().burn_count, 1);
}

fn authorize_ctx(caller: u8) -> AuthorizeProgram {
    AuthorizeProgram {
        authority: key(caller),
        sacred_waste_pit: pit(5),
        program_to_authorize: key(CALLER),
        authorized_program: None,
        bumps: AuthorizeProgramBumps { authorized_program: 200 },
    }
}

#[test]
fn authorize_by_the_pits_authority_creates_the_entry() {
    let mut ctx = authorize_ctx(AUTHORITY);
    assert_eq!(handler_authorize(&mut ctx, true), Ok(()));
    assert_eq!(ctx.authorized_program, entry(CALLER, true));
    assert_eq!(ctx.sacred_waste_pit, pit(5));
}

#[test]
fn authorize_can_switch_an_entry_off() {
    let mut ctx = authorize_ctx(AUTHORITY);
    ctx.authorized_program = entry(CALLER, true);
    assert_eq!(handler_authorize(&mut ctx, false), Ok(()));
    assert_eq!(ctx.authorized_program, entry(CALLER, false));
}

#[test]
fn authorize_by_a_stranger_is_unauthorized() {
    let mut ctx = authorize_ctx(99);
    assert_eq!(handler_authorize(&mut ctx, true), Err(PitError::Unauthorized));
    assert_eq!(ctx.authorized_program, None);
}
