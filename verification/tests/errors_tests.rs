use artifacts_client::errors::{
    AccountError, ApiError, BankError, CharacterError, GeneralError, GrandExchangeError,
    ItemError, MapError,
};

fn m() -> String {
    String::from("details")
}

#[test]
fn general_error_codes() {
    assert_eq!(GeneralError::InvalidPayload(m()).code(), 422);
    assert_eq!(GeneralError::TooManyRequests(m()).code(), 429);
    assert_eq!(GeneralError::NotFound(m()).code(), 404);
    assert_eq!(GeneralError::FatalError(m()).code(), 500);
}

#[test]
fn account_error_codes() {
    assert_eq!(AccountError::TokenInvalid(m()).code(), 452);
    assert_eq!(AccountError::TokenExpired(m()).code(), 453);
    assert_eq!(AccountError::TokenMissing(m()).code(), 454);
    assert_eq!(AccountError::TokenGenerationFail(m()).code(), 455);
    assert_eq!(AccountError::UsernameAlreadyUsed(m()).code(), 456);
    assert_eq!(AccountError::EmailAlreadyUsed(m()).code(), 457);
    assert_eq!(AccountError::SamePassword(m()).code(), 458);
    assert_eq!(AccountError::CurrentPasswordInvalid(m()).code(), 459);
}

#[test]
fn character_error_codes() {
    assert_eq!(CharacterError::NotEnoughHp(m()).code(), 483);
    assert_eq!(CharacterError::MaximumUtilitiesEquipped(m()).code(), 484);
    assert_eq!(CharacterError::ItemAlreadyEquipped(m()).code(), 485);
    assert_eq!(CharacterError::Locked(m()).code(), 486);
    assert_eq!(CharacterError::NotThisTask(m()).code(), 474);
    assert_eq!(CharacterError::TooManyItemsTask(m()).code(), 475);
    assert_eq!(CharacterError::NoTask(m()).code(), 487);
    assert_eq!(CharacterError::TaskNotCompleted(m()).code(), 488);
    assert_eq!(CharacterError::AlreadyTask(m()).code(), 489);
    assert_eq!(CharacterError::AlreadyMap(m()).code(), 490);
    assert_eq!(CharacterError::SlotEquipmentError(m()).code(), 491);
    assert_eq!(CharacterError::GoldInsufficient(m()).code(), 492);
    assert_eq!(CharacterError::NotSkillLevelRequired(m()).code(), 493);
    assert_eq!(CharacterError::NameAlreadyUsed(m()).code(), 494);
    assert_eq!(CharacterError::MaxCharactersReached(m()).code(), 495);
    assert_eq!(CharacterError::NotLevelRequired(m()).code(), 496);
    assert_eq!(CharacterError::InventoryFull(m()).code(), 497);
    assert_eq!(CharacterError::NotFound(m()).code(), 498);
    assert_eq!(CharacterError::InCooldown(m()).code(), 499);
}

#[test]
fn item_error_codes() {
    assert_eq!(ItemError::InsufficientQuantity(m()).code(), 471);
    assert_eq!(ItemError::InvalidEquipment(m()).code(), 472);
    assert_eq!(ItemError::RecyclingInvalidItem(m()).code(), 473);
    assert_eq!(ItemError::InvalidConsumable(m()).code(), 476);
    assert_eq!(ItemError::MissingItem(m()).code(), 478);
}

#[test]
fn grand_exchange_error_codes() {
    assert_eq!(GrandExchangeError::MaxQuantity(m()).code(), 479);
    assert_eq!(GrandExchangeError::NotInStock(m()).code(), 480);
    assert_eq!(GrandExchangeError::NotThePrice(m()).code(), 482);
    assert_eq!(GrandExchangeError::TransactionInProgress(m()).code(), 436);
    assert_eq!(GrandExchangeError::NoOrders(m()).code(), 431);
    assert_eq!(GrandExchangeError::MaxOrders(m()).code(), 433);
    assert_eq!(GrandExchangeError::TooManyItems(m()).code(), 434);
    assert_eq!(GrandExchangeError::SameAccount(m()).code(), 435);
    assert_eq!(GrandExchangeError::InvalidItem(m()).code(), 437);
    assert_eq!(GrandExchangeError::NotYourOrder(m()).code(), 438);
}

#[test]
fn bank_error_codes() {
    assert_eq!(BankError::InsufficientGold(m()).code(), 460);
    assert_eq!(BankError::TransactionInProgress(m()).code(), 461);
    assert_eq!(BankError::Full(m()).code(), 462);
}

#[test]
fn map_error_codes() {
    assert_eq!(MapError::NotFound(m()).code(), 597);
    assert_eq!(MapError::ContentNotFound(m()).code(), 598);
}

#[test]
fn api_error_delegates_code_and_full_text() {
    // a wrapped error's message is its full display text
    let e = ApiError::Character(CharacterError::InCooldown(String::from("wait 12s")));
    assert_eq!(e.code(), 499);
    assert_eq!(e.message(), "[Error 499] In cooldown: wait 12s");

    let e = ApiError::Maps(MapError::NotFound(String::from("no such map")));
    assert_eq!(e.code(), 597);
    assert_eq!(e.message(), "[Error 597] Map not found: no such map");

    let e = ApiError::Character(CharacterError::NotFound(String::from("x")));
    assert_eq!(e.message(), "[Error 498] Character not found: x");

    let e = ApiError::General(GeneralError::InvalidPayload(String::from("bad json")));
    assert_eq!(e.message(), "[Error 422] Invalid payload: bad json");

    // an unknown error carries its raw message alone
    let e = ApiError::UnknownError { code: 418, message: String::from("teapot") };
    assert_eq!(e.code(), 418);
    assert_eq!(e.message(), "teapot");
}

#[test]
fn display_strings_carry_code_and_description() {
    assert_eq!(
        GeneralError::TooManyRequests(m()).display_string(),
        "[Error 429] Too many requests: details"
    );
    assert_eq!(
        AccountError::TokenExpired(m()).display_string(),
        "[Error 453] Token expired: details"
    );
    assert_eq!(
        CharacterError::InventoryFull(m()).display_string(),
        "[Error 497] Inventory full: details"
    );
    assert_eq!(
        ItemError::MissingItem(m()).display_string(),
        "[Error 478] Missing item: details"
    );
    assert_eq!(
        GrandExchangeError::NotInStock(m()).display_string(),
        "[Error 480] Item not in stock: details"
    );
    assert_eq!(
        BankError::Full(m()).display_string(),
        "[Error 462] Bank full: details"
    );
    assert_eq!(
        MapError::ContentNotFound(m()).display_string(),
        "[Error 598] Map content not found: details"
    );
}

#[test]
fn messages_are_preserved() {
    assert_eq!(GeneralError::NotFound(String::from("x")).message(), "x");
    assert_eq!(AccountError::TokenExpired(String::from("y")).message(), "y");
    assert_eq!(ItemError::MissingItem(String::from("z")).message(), "z");
    assert_eq!(BankError::Full(String::from("w")).message(), "w");
    assert_eq!(
        GrandExchangeError::NoOrders(String::from("v")).message(),
        "v"
    );
}
