use shitpost_pro::instructions::admin::{
    handler_set_pit, handler_set_premium_fee, handler_set_treasury, handler_transfer_authority,
    AdminError, AuthorityTransferred, PremiumFeeUpdated, SacredWastePitUpdated, SetPremiumFee,
    SetSacredWastePit, SetTreasury, TransferAuthority, TreasuryUpdated,
};
use shitpost_pro::pubkey::Pubkey;
use shitpost_pro::state::CollectionConfig;

fn key(n: u8) -> Pubkey {
    Pubkey::new_from_array([n; 32])
}

fn config(authority: Pubkey) -> CollectionConfig {
    CollectionConfig {
        authority,
        name: String::from("Shitposts"),
        symbol: String::from("SHIT"),
        uri: String::from("ipfs://collection"),
        treasury: key(9),
        premium_fee: 1000,
        total_minted: 3,
        total_burned: 1,
        sacred_waste_pit: None,
        bump: 254,
    }
}

#[test]
fn set_premium_fee_by_authority_reports_old_fee() {
    let mut ctx = SetPremiumFee { authority: key(1), collection_config: config(key(1)) };
    let event = handler_set_premium_fee(&mut ctx, 2500);
    assert_eq!(event, Ok(PremiumFeeUpdated { old_fee: 1000, new_fee: 2500 }));
    let mut expected = config(key(1));
    expected.premium_fee = 2500;
    assert_eq!(ctx.collection_config, expected);
}

#[test]
fn set_premium_fee_by_stranger_is_unauthorized() {
    let mut ctx = SetPremiumFee { authority: key(2), collection_config: config(key(1)) };
    assert_eq!(handler_set_premium_fee(&mut ctx, 2500), Err(AdminError::Unauthorized));
    assert_eq!(ctx.collection_config, config(key(1)));
}

#[test]
fn set_treasury_by_authority_reports_old_treasury() {
    let mut ctx = SetTreasury { authority: key(1), collection_config: config(key(1)) };
    let event = handler_set_treasury(&mut ctx, key(8));
    assert_eq!(event, Ok(TreasuryUpdated { old_treasury: key(9), new_treasury: key(8) }));
    let mut expected = config(key(1));
    expected.treasury = key(8);
    assert_eq!(ctx.collection_config, expected);
}

#[test]
fn set_treasury_by_stranger_is_unauthorized() {
    let mut ctx = SetTreasury { authority: key(2), collection_config: config(key(1)) };
    assert_eq!(handler_set_treasury(&mut ctx, key(8)), Err(AdminError::Unauthorized));
    assert_eq!(ctx.collection_config, config(key(1)));
}

#[test]
fn set_pit_by_authority_reports_old_link() {
    let mut ctx = SetSacredWastePit { authority: key(1), collection_config: config(key(1)) };
    let first = handler_set_pit(&mut ctx, key(7));
    assert_eq!(first, Ok(SacredWastePitUpdated { old_pit: None, new_pit: Some(key(7)) }));
    assert_eq!(ctx.collection_config.sacred_waste_pit, Some(key(7)));
    let second = handler_set_pit(&mut ctx, key(6));
    assert_eq!(second, Ok(SacredWastePitUpdated { old_pit: Some(key(7)), new_pit: Some(key(6)) }));
    let mut expected = config(key(1));
    expected.sacred_waste_pit = Some(key(6));
    assert_eq!(ctx.collection_config, expected);
}

#[test]
fn set_pit_by_stranger_is_unauthorized() {
    let mut ctx = SetSacredWastePit { authority: key(2), collection_config: config(key(1)) };
    assert_eq!(handler_set_pit(&mut ctx, key(7)), Err(AdminError::Unauthorized));
    assert_eq!(ctx.collection_config, config(key(1)));
}

#[test]
fn transfer_authority_by_authority_reports_old_authority() {
    let mut ctx = TransferAuthority {
        authority: key(1),
        collection_config: config(key(1)),
        new_authority: key(5),
    };
    let event = handler_transfer_authority(&mut ctx);
    assert_eq!(event, Ok(AuthorityTransferred { old_authority: key(1), new_authority: key(5) }));
    assert_eq!(ctx.collection_config, config(key(5)));
}

#[test]
fn transfer_authority_by_stranger_is_unauthorized() {
    let mut ctx = TransferAuthority {
        authority: key(2),
        collection_config: config(key(1)),
        new_authority: key(2),
    };
    assert_eq!(handler_transfer_authority(&mut ctx), Err(AdminError::Unauthorized));
    assert_eq!(ctx.collection_config, config(key(1)));
}

#[test]
fn previous_authority_loses_its_capability_at_once() {
    let mut transfer = TransferAuthority {
        authority: key(1),
        collection_config: config(key(1)),
        new_authority: key(5),
    };
    handler_transfer_authority(&mut transfer).unwrap();
    let mut by_old =
        SetPremiumFee { authority: key(1), collection_config: transfer.collection_config.clone() };
    assert_eq!(handler_set_premium_fee(&mut by_old, 1), Err(AdminError::Unauthorized));
    let mut by_new =
        SetPremiumFee { authority: key(5), collection_config: transfer.collection_config };
    assert_eq!(
        handler_set_premium_fee(&mut by_new, 1),
        Ok(PremiumFeeUpdated { old_fee: 1000, new_fee: 1 })
    );
}
