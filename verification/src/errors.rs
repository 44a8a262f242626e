//! The error taxonomy of the game API.
//!
//! Every failure the server reports is identified by a numeric error code.
//! The codes are grouped by subject into one enum each; [`ApiError`] wraps
//! any of them, or carries a raw code and message when the code is not part
//! of the taxonomy.  `code` and `message` expose exactly the code and the
//! message text carried by a value.

use vstd::prelude::*;
use vstd::string::StringExecFns;

verus! {

/// A prefix text followed by a carried message, as one string.
fn prefixed(prefix: &str, msg: &String) -> (t: String)
    ensures
        t@ == prefix@ + msg@,
{
    let mut out = String::from_str(prefix);
    out.append(msg.as_str());
    out
}

/// General error codes

#[derive(Debug, Clone)]
pub enum GeneralError {
    InvalidPayload(String),
    TooManyRequests(String),
    NotFound(String),
    FatalError(String),
}

impl GeneralError {

    /// The full error text: the bracketed code, the short description of
    /// the variant, and the carried message.
    pub open spec fn spec_display(&self) -> Seq<char> {
        match self {
            GeneralError::InvalidPayload(msg) => "[Error 422] Invalid payload: "@ + msg@,
            GeneralError::TooManyRequests(msg) => "[Error 429] Too many requests: "@ + msg@,
            GeneralError::NotFound(msg) => "[Error 404] Not found: "@ + msg@,
            GeneralError::FatalError(msg) => "[Error 500] Fatal error: "@ + msg@,
        }
    }

    /// Returns the full error text: the bracketed code, the short
    /// description of the variant, and the carried message.
    pub fn display_string(&self) -> (t: String)
        ensures
            t@ == self.spec_display(),
    {
        match self {
            GeneralError::InvalidPayload(msg) => prefixed("[Error 422] Invalid payload: ", msg),
            GeneralError::TooManyRequests(msg) => prefixed("[Error 429] Too many requests: ", msg),
            GeneralError::NotFound(msg) => prefixed("[Error 404] Not found: ", msg),
            GeneralError::FatalError(msg) => prefixed("[Error 500] Fatal error: ", msg),
        }
    }
    /// The error code of this error, as a mathematical value.
    pub open spec fn spec_code(&self) -> u16 {
        match self {
            GeneralError::InvalidPayload(_) => 422,
            GeneralError::TooManyRequests(_) => 429,
            GeneralError::NotFound(_) => 404,
            GeneralError::FatalError(_) => 500,
        }
    }

    /// The message text carried by this error.
    pub open spec fn spec_message(&self) -> Seq<char> {
        match self {
            GeneralError::InvalidPayload(msg) => msg@,
            GeneralError::TooManyRequests(msg) => msg@,
            GeneralError::NotFound(msg) => msg@,
            GeneralError::FatalError(msg) => msg@,
        }
    }

    /// Returns the error code associated with the error.
    pub fn code(&self) -> (c: u16)
        ensures
            c == self.spec_code(),
    {
        match self {
            GeneralError::InvalidPayload(_) => 422,
            GeneralError::TooManyRequests(_) => 429,
            GeneralError::NotFound(_) => 404,
            GeneralError::FatalError(_) => 500,
        }
    }

    /// Returns the error message associated with the error.
    pub fn message(&self) -> (m: String)
        ensures
            m@ == self.spec_message(),
    {
        match self {
            GeneralError::InvalidPayload(msg) => msg.clone(),
            GeneralError::TooManyRequests(msg) => msg.clone(),
            GeneralError::NotFound(msg) => msg.clone(),
            GeneralError::FatalError(msg) => msg.clone(),
        }
    }
}

/// Account related errors
#[derive(Debug, Clone)]
pub enum AccountError {
    TokenInvalid(String),
    TokenExpired(String),
    TokenMissing(String),
    TokenGenerationFail(String),
    UsernameAlreadyUsed(String),
    EmailAlreadyUsed(String),
    SamePassword(String),
    CurrentPasswordInvalid(String),
}

impl AccountError {

    /// The full error text: the bracketed code, the short description of
    /// the variant, and the carried message.
    pub open spec fn spec_display(&self) -> Seq<char> {
        match self {
            AccountError::TokenInvalid(msg) => "[Error 452] Token invalid: "@ + msg@,
            AccountError::TokenExpired(msg) => "[Error 453] Token expired: "@ + msg@,
            AccountError::TokenMissing(msg) => "[Error 454] Token missing: "@ + msg@,
            AccountError::TokenGenerationFail(msg) => "[Error 455] Token generation failed: "@ + msg@,
            AccountError::UsernameAlreadyUsed(msg) => "[Error 456] Username already used: "@ + msg@,
            AccountError::EmailAlreadyUsed(msg) => "[Error 457] Email already used: "@ + msg@,
            AccountError::SamePassword(msg) => "[Error 458] Same password: "@ + msg@,
            AccountError::CurrentPasswordInvalid(msg) => "[Error 459] Current password invalid: "@ + msg@,
        }
    }

    /// Returns the full error text: the bracketed code, the short
    /// description of the variant, and the carried message.
    pub fn display_string(&self) -> (t: String)
        ensures
            t@ == self.spec_display(),
    {
        match self {
            AccountError::TokenInvalid(msg) => prefixed("[Error 452] Token invalid: ", msg),
            AccountError::TokenExpired(msg) => prefixed("[Error 453] Token expired: ", msg),
            AccountError::TokenMissing(msg) => prefixed("[Error 454] Token missing: ", msg),
            AccountError::TokenGenerationFail(msg) => prefixed("[Error 455] Token generation failed: ", msg),
            AccountError::UsernameAlreadyUsed(msg) => prefixed("[Error 456] Username already used: ", msg),
            AccountError::EmailAlreadyUsed(msg) => prefixed("[Error 457] Email already used: ", msg),
            AccountError::SamePassword(msg) => prefixed("[Error 458] Same password: ", msg),
            AccountError::CurrentPasswordInvalid(msg) => prefixed("[Error 459] Current password invalid: ", msg),
        }
    }
    /// The error code of this error, as a mathematical value.
    pub open spec fn spec_code(&self) -> u16 {
        match self {
            AccountError::TokenInvalid(_) => 452,
            AccountError::TokenExpired(_) => 453,
            AccountError::TokenMissing(_) => 454,
            AccountError::TokenGenerationFail(_) => 455,
            AccountError::UsernameAlreadyUsed(_) => 456,
            AccountError::EmailAlreadyUsed(_) => 457,
            AccountError::SamePassword(_) => 458,
            AccountError::CurrentPasswordInvalid(_) => 459,
        }
    }

    /// The message text carried by this error.
    pub open spec fn spec_message(&self) -> Seq<char> {
        match self {
            AccountError::TokenInvalid(msg) => msg@,
            AccountError::TokenExpired(msg) => msg@,
            AccountError::TokenMissing(msg) => msg@,
            AccountError::TokenGenerationFail(msg) => msg@,
            AccountError::UsernameAlreadyUsed(msg) => msg@,
            AccountError::EmailAlreadyUsed(msg) => msg@,
            AccountError::SamePassword(msg) => msg@,
            AccountError::CurrentPasswordInvalid(msg) => msg@,
        }
    }

    /// Returns the error code associated with the error.
    pub fn code(&self) -> (c: u16)
        ensures
            c == self.spec_code(),
    {
        match self {
            AccountError::TokenInvalid(_) => 452,
            AccountError::TokenExpired(_) => 453,
            AccountError::TokenMissing(_) => 454,
            AccountError::TokenGenerationFail(_) => 455,
            AccountError::UsernameAlreadyUsed(_) => 456,
            AccountError::EmailAlreadyUsed(_) => 457,
            AccountError::SamePassword(_) => 458,
            AccountError::CurrentPasswordInvalid(_) => 459,
        }
    }

    /// Returns the error message associated with the error.
    pub fn message(&self) -> (m: String)
        ensures
            m@ == self.spec_message(),
    {
        match self {
            AccountError::TokenInvalid(msg) => msg.clone(),
            AccountError::TokenExpired(msg) => msg.clone(),
            AccountError::TokenMissing(msg) => msg.clone(),
            AccountError::TokenGenerationFail(msg) => msg.clone(),
            AccountError::UsernameAlreadyUsed(msg) => msg.clone(),
            AccountError::EmailAlreadyUsed(msg) => msg.clone(),
            AccountError::SamePassword(msg) => msg.clone(),
            AccountError::CurrentPasswordInvalid(msg) => msg.clone(),
        }
    }
}

/// Character related errors
#[derive(Debug, Clone)]
pub enum CharacterError {
    NotEnoughHp(String),
    MaximumUtilitiesEquipped(String),
    ItemAlreadyEquipped(String),
    Locked(String),
    NotThisTask(String),
    TooManyItemsTask(String),
    NoTask(String),
    TaskNotCompleted(String),
    AlreadyTask(String),
    AlreadyMap(String),
    SlotEquipmentError(String),
    GoldInsufficient(String),
    NotSkillLevelRequired(String),
    NameAlreadyUsed(String),
    MaxCharactersReached(String),
    NotLevelRequired(String),
    InventoryFull(String),
    NotFound(String),
    InCooldown(String),
}

impl CharacterError {

    /// The full error text: the bracketed code, the short description of
    /// the variant, and the carried message.
    pub open spec fn spec_display(&self) -> Seq<char> {
        match self {
            CharacterError::NotEnoughHp(msg) => "[Error 483] Not enough HP: "@ + msg@,
            CharacterError::MaximumUtilitiesEquipped(msg) => "[Error 484] Maximum utilities equipped: "@ + msg@,
            CharacterError::ItemAlreadyEquipped(msg) => "[Error 485] Item already equipped: "@ + msg@,
            CharacterError::Locked(msg) => "[Error 486] Character locked: "@ + msg@,
            CharacterError::NotThisTask(msg) => "[Error 474] Not that task: "@ + msg@,
            CharacterError::TooManyItemsTask(msg) => "[Error 475] Too many items for task: "@ + msg@,
            CharacterError::NoTask(msg) => "[Error 487] No task: "@ + msg@,
            CharacterError::TaskNotCompleted(msg) => "[Error 488] Task not completed: "@ + msg@,
            CharacterError::AlreadyTask(msg) => "[Error 489] Already has a task: "@ + msg@,
            CharacterError::AlreadyMap(msg) => "[Error 490] Already on map: "@ + msg@,
            CharacterError::SlotEquipmentError(msg) => "[Error 491] Slot equipment error: "@ + msg@,
            CharacterError::GoldInsufficient(msg) => "[Error 492] Gold insufficient: "@ + msg@,
            CharacterError::NotSkillLevelRequired(msg) => "[Error 493] Skill level not sufficient: "@ + msg@,
            CharacterError::NameAlreadyUsed(msg) => "[Error 494] Name already used: "@ + msg@,
            CharacterError::MaxCharactersReached(msg) => "[Error 495] Maximum characters reached: "@ + msg@,
            CharacterError::NotLevelRequired(msg) => "[Error 496] Level not sufficient: "@ + msg@,
            CharacterError::InventoryFull(msg) => "[Error 497] Inventory full: "@ + msg@,
            CharacterError::NotFound(msg) => "[Error 498] Character not found: "@ + msg@,
            CharacterError::InCooldown(msg) => "[Error 499] In cooldown: "@ + msg@,
        }
    }

    /// Returns the full error text: the bracketed code, the short
    /// description of the variant, and the carried message.
    pub fn display_string(&self) -> (t: String)
        ensures
            t@ == self.spec_display(),
    {
        match self {
            CharacterError::NotEnoughHp(msg) => prefixed("[Error 483] Not enough HP: ", msg),
            CharacterError::MaximumUtilitiesEquipped(msg) => prefixed("[Error 484] Maximum utilities equipped: ", msg),
            CharacterError::ItemAlreadyEquipped(msg) => prefixed("[Error 485] Item already equipped: ", msg),
            CharacterError::Locked(msg) => prefixed("[Error 486] Character locked: ", msg),
            CharacterError::NotThisTask(msg) => prefixed("[Error 474] Not that task: ", msg),
            CharacterError::TooManyItemsTask(msg) => prefixed("[Error 475] Too many items for task: ", msg),
            CharacterError::NoTask(msg) => prefixed("[Error 487] No task: ", msg),
            CharacterError::TaskNotCompleted(msg) => prefixed("[Error 488] Task not completed: ", msg),
            CharacterError::AlreadyTask(msg) => prefixed("[Error 489] Already has a task: ", msg),
            CharacterError::AlreadyMap(msg) => prefixed("[Error 490] Already on map: ", msg),
            CharacterError::SlotEquipmentError(msg) => prefixed("[Error 491] Slot equipment error: ", msg),
            CharacterError::GoldInsufficient(msg) => prefixed("[Error 492] Gold insufficient: ", msg),
            CharacterError::NotSkillLevelRequired(msg) => prefixed("[Error 493] Skill level not sufficient: ", msg),
            CharacterError::NameAlreadyUsed(msg) => prefixed("[Error 494] Name already used: ", msg),
            CharacterError::MaxCharactersReached(msg) => prefixed("[Error 495] Maximum characters reached: ", msg),
            CharacterError::NotLevelRequired(msg) => prefixed("[Error 496] Level not sufficient: ", msg),
            CharacterError::InventoryFull(msg) => prefixed("[Error 497] Inventory full: ", msg),
            CharacterError::NotFound(msg) => prefixed("[Error 498] Character not found: ", msg),
            CharacterError::InCooldown(msg) => prefixed("[Error 499] In cooldown: ", msg),
        }
    }
    /// The error code of this error, as a mathematical value.
    pub open spec fn spec_code(&self) -> u16 {
        match self {
            CharacterError::NotEnoughHp(_) => 483,
            CharacterError::MaximumUtilitiesEquipped(_) => 484,
            CharacterError::ItemAlreadyEquipped(_) => 485,
            CharacterError::Locked(_) => 486,
            CharacterError::NotThisTask(_) => 474,
            CharacterError::TooManyItemsTask(_) => 475,
            CharacterError::NoTask(_) => 487,
            CharacterError::TaskNotCompleted(_) => 488,
            CharacterError::AlreadyTask(_) => 489,
            CharacterError::AlreadyMap(_) => 490,
            CharacterError::SlotEquipmentError(_) => 491,
            CharacterError::GoldInsufficient(_) => 492,
            CharacterError::NotSkillLevelRequired(_) => 493,
            CharacterError::NameAlreadyUsed(_) => 494,
            CharacterError::MaxCharactersReached(_) => 495,
            CharacterError::NotLevelRequired(_) => 496,
            CharacterError::InventoryFull(_) => 497,
            CharacterError::NotFound(_) => 498,
            CharacterError::InCooldown(_) => 499,
        }
    }

    /// The message text carried by this error.
    pub open spec fn spec_message(&self) -> Seq<char> {
        match self {
            CharacterError::NotEnoughHp(msg) => msg@,
            CharacterError::MaximumUtilitiesEquipped(msg) => msg@,
            CharacterError::ItemAlreadyEquipped(msg) => msg@,
            CharacterError::Locked(msg) => msg@,
            CharacterError::NotThisTask(msg) => msg@,
            CharacterError::TooManyItemsTask(msg) => msg@,
            CharacterError::NoTask(msg) => msg@,
            CharacterError::TaskNotCompleted(msg) => msg@,
            CharacterError::AlreadyTask(msg) => msg@,
            CharacterError::AlreadyMap(msg) => msg@,
            CharacterError::SlotEquipmentError(msg) => msg@,
            CharacterError::GoldInsufficient(msg) => msg@,
            CharacterError::NotSkillLevelRequired(msg) => msg@,
            CharacterError::NameAlreadyUsed(msg) => msg@,
            CharacterError::MaxCharactersReached(msg) => msg@,
            CharacterError::NotLevelRequired(msg) => msg@,
            CharacterError::InventoryFull(msg) => msg@,
            CharacterError::NotFound(msg) => msg@,
            CharacterError::InCooldown(msg) => msg@,
        }
    }

    /// Returns the error code associated with the error.
    pub fn code(&self) -> (c: u16)
        ensures
            c == self.spec_code(),
    {
        match self {
            CharacterError::NotEnoughHp(_) => 483,
            CharacterError::MaximumUtilitiesEquipped(_) => 484,
            CharacterError::ItemAlreadyEquipped(_) => 485,
            CharacterError::Locked(_) => 486,
            CharacterError::NotThisTask(_) => 474,
            CharacterError::TooManyItemsTask(_) => 475,
            CharacterError::NoTask(_) => 487,
            CharacterError::TaskNotCompleted(_) => 488,
            CharacterError::AlreadyTask(_) => 489,
            CharacterError::AlreadyMap(_) => 490,
            CharacterError::SlotEquipmentError(_) => 491,
            CharacterError::GoldInsufficient(_) => 492,
            CharacterError::NotSkillLevelRequired(_) => 493,
            CharacterError::NameAlreadyUsed(_) => 494,
            CharacterError::MaxCharactersReached(_) => 495,
            CharacterError::NotLevelRequired(_) => 496,
            CharacterError::InventoryFull(_) => 497,
            CharacterError::NotFound(_) => 498,
            CharacterError::InCooldown(_) => 499,
        }
    }

    /// Returns the error message associated with the error.
    pub fn message(&self) -> (m: String)
        ensures
            m@ == self.spec_message(),
    {
        match self {
            CharacterError::NotEnoughHp(msg) => msg.clone(),
            CharacterError::MaximumUtilitiesEquipped(msg) => msg.clone(),
            CharacterError::ItemAlreadyEquipped(msg) => msg.clone(),
            CharacterError::Locked(msg) => msg.clone(),
            CharacterError::NotThisTask(msg) => msg.clone(),
            CharacterError::TooManyItemsTask(msg) => msg.clone(),
            CharacterError::NoTask(msg) => msg.clone(),
            CharacterError::TaskNotCompleted(msg) => msg.clone(),
            CharacterError::AlreadyTask(msg) => msg.clone(),
            CharacterError::AlreadyMap(msg) => msg.clone(),
            CharacterError::SlotEquipmentError(msg) => msg.clone(),
            CharacterError::GoldInsufficient(msg) => msg.clone(),
            CharacterError::NotSkillLevelRequired(msg) => msg.clone(),
            CharacterError::NameAlreadyUsed(msg) => msg.clone(),
            CharacterError::MaxCharactersReached(msg) => msg.clone(),
            CharacterError::NotLevelRequired(msg) => msg.clone(),
            CharacterError::InventoryFull(msg) => msg.clone(),
            CharacterError::NotFound(msg) => msg.clone(),
            CharacterError::InCooldown(msg) => msg.clone(),
        }
    }
}

/// Item related errors
#[derive(Debug, Clone)]
pub enum ItemError {
    InsufficientQuantity(String),
    InvalidEquipment(String),
    RecyclingInvalidItem(String),
    InvalidConsumable(String),
    MissingItem(String),
}

impl ItemError {

    /// The full error text: the bracketed code, the short description of
    /// the variant, and the carried message.
    pub open spec fn spec_display(&self) -> Seq<char> {
        match self {
            ItemError::InsufficientQuantity(msg) => "[Error 471] Insufficient quantity: "@ + msg@,
            ItemError::InvalidEquipment(msg) => "[Error 472] Invalid equipment: "@ + msg@,
            ItemError::RecyclingInvalidItem(msg) => "[Error 473] Recycling invalid item: "@ + msg@,
            ItemError::InvalidConsumable(msg) => "[Error 476] Invalid consumable: "@ + msg@,
            ItemError::MissingItem(msg) => "[Error 478] Missing item: "@ + msg@,
        }
    }

    /// Returns the full error text: the bracketed code, the short
    /// description of the variant, and the carried message.
    pub fn display_string(&self) -> (t: String)
        ensures
            t@ == self.spec_display(),
    {
        match self {
            ItemError::InsufficientQuantity(msg) => prefixed("[Error 471] Insufficient quantity: ", msg),
            ItemError::InvalidEquipment(msg) => prefixed("[Error 472] Invalid equipment: ", msg),
            ItemError::RecyclingInvalidItem(msg) => prefixed("[Error 473] Recycling invalid item: ", msg),
            ItemError::InvalidConsumable(msg) => prefixed("[Error 476] Invalid consumable: ", msg),
            ItemError::MissingItem(msg) => prefixed("[Error 478] Missing item: ", msg),
        }
    }
    /// The error code of this error, as a mathematical value.
    pub open spec fn spec_code(&self) -> u16 {
        match self {
            ItemError::InsufficientQuantity(_) => 471,
            ItemError::InvalidEquipment(_) => 472,
            ItemError::RecyclingInvalidItem(_) => 473,
            ItemError::InvalidConsumable(_) => 476,
            ItemError::MissingItem(_) => 478,
        }
    }

    /// The message text carried by this error.
    pub open spec fn spec_message(&self) -> Seq<char> {
        match self {
            ItemError::InsufficientQuantity(msg) => msg@,
            ItemError::InvalidEquipment(msg) => msg@,
            ItemError::RecyclingInvalidItem(msg) => msg@,
            ItemError::InvalidConsumable(msg) => msg@,
            ItemError::MissingItem(msg) => msg@,
        }
    }

    /// Returns the error code associated with the error.
    pub fn code(&self) -> (c: u16)
        ensures
            c == self.spec_code(),
    {
        match self {
            ItemError::InsufficientQuantity(_) => 471,
            ItemError::InvalidEquipment(_) => 472,
            ItemError::RecyclingInvalidItem(_) => 473,
            ItemError::InvalidConsumable(_) => 476,
            ItemError::MissingItem(_) => 478,
        }
    }

    /// Returns the error message associated with the error.
    pub fn message(&self) -> (m: String)
        ensures
            m@ == self.spec_message(),
    {
        match self {
            ItemError::InsufficientQuantity(msg) => msg.clone(),
            ItemError::InvalidEquipment(msg) => msg.clone(),
            ItemError::RecyclingInvalidItem(msg) => msg.clone(),
            ItemError::InvalidConsumable(msg) => msg.clone(),
            ItemError::MissingItem(msg) => msg.clone(),
        }
    }
}

/// Grand Exchange related errors
#[derive(Debug, Clone)]
pub enum GrandExchangeError {
    MaxQuantity(String),
    NotInStock(String),
    NotThePrice(String),
    TransactionInProgress(String),
    NoOrders(String),
    MaxOrders(String),
    TooManyItems(String),
    SameAccount(String),
    InvalidItem(String),
    NotYourOrder(String),
}

impl GrandExchangeError {

    /// The full error text: the bracketed code, the short description of
    /// the variant, and the carried message.
    pub open spec fn spec_display(&self) -> Seq<char> {
        match self {
            GrandExchangeError::MaxQuantity(msg) => "[Error 479] Max quantity exceeded: "@ + msg@,
            GrandExchangeError::NotInStock(msg) => "[Error 480] Item not in stock: "@ + msg@,
            GrandExchangeError::NotThePrice(msg) => "[Error 482] Price mismatch: "@ + msg@,
            GrandExchangeError::TransactionInProgress(msg) => "[Error 436] Transaction in progress: "@ + msg@,
            GrandExchangeError::NoOrders(msg) => "[Error 431] No orders: "@ + msg@,
            GrandExchangeError::MaxOrders(msg) => "[Error 433] Max orders reached: "@ + msg@,
            GrandExchangeError::TooManyItems(msg) => "[Error 434] Too many items: "@ + msg@,
            GrandExchangeError::SameAccount(msg) => "[Error 435] Same account: "@ + msg@,
            GrandExchangeError::InvalidItem(msg) => "[Error 437] Invalid item: "@ + msg@,
            GrandExchangeError::NotYourOrder(msg) => "[Error 438] Not your order: "@ + msg@,
        }
    }

    /// Returns the full error text: the bracketed code, the short
    /// description of the variant, and the carried message.
    pub fn display_string(&self) -> (t: String)
        ensures
            t@ == self.spec_display(),
    {
        match self {
            GrandExchangeError::MaxQuantity(msg) => prefixed("[Error 479] Max quantity exceeded: ", msg),
            GrandExchangeError::NotInStock(msg) => prefixed("[Error 480] Item not in stock: ", msg),
            GrandExchangeError::NotThePrice(msg) => prefixed("[Error 482] Price mismatch: ", msg),
            GrandExchangeError::TransactionInProgress(msg) => prefixed("[Error 436] Transaction in progress: ", msg),
            GrandExchangeError::NoOrders(msg) => prefixed("[Error 431] No orders: ", msg),
            GrandExchangeError::MaxOrders(msg) => prefixed("[Error 433] Max orders reached: ", msg),
            GrandExchangeError::TooManyItems(msg) => prefixed("[Error 434] Too many items: ", msg),
            GrandExchangeError::SameAccount(msg) => prefixed("[Error 435] Same account: ", msg),
            GrandExchangeError::InvalidItem(msg) => prefixed("[Error 437] Invalid item: ", msg),
            GrandExchangeError::NotYourOrder(msg) => prefixed("[Error 438] Not your order: ", msg),
        }
    }
    /// The error code of this error, as a mathematical value.
    pub open spec fn spec_code(&self) -> u16 {
        match self {
            GrandExchangeError::MaxQuantity(_) => 479,
            GrandExchangeError::NotInStock(_) => 480,
            GrandExchangeError::NotThePrice(_) => 482,
            GrandExchangeError::TransactionInProgress(_) => 436,
            GrandExchangeError::NoOrders(_) => 431,
            GrandExchangeError::MaxOrders(_) => 433,
            GrandExchangeError::TooManyItems(_) => 434,
            GrandExchangeError::SameAccount(_) => 435,
            GrandExchangeError::InvalidItem(_) => 437,
            GrandExchangeError::NotYourOrder(_) => 438,
        }
    }

    /// The message text carried by this error.
    pub open spec fn spec_message(&self) -> Seq<char> {
        match self {
            GrandExchangeError::MaxQuantity(msg) => msg@,
            GrandExchangeError::NotInStock(msg) => msg@,
            GrandExchangeError::NotThePrice(msg) => msg@,
            GrandExchangeError::TransactionInProgress(msg) => msg@,
            GrandExchangeError::NoOrders(msg) => msg@,
            GrandExchangeError::MaxOrders(msg) => msg@,
            GrandExchangeError::TooManyItems(msg) => msg@,
            GrandExchangeError::SameAccount(msg) => msg@,
            GrandExchangeError::InvalidItem(msg) => msg@,
            GrandExchangeError::NotYourOrder(msg) => msg@,
        }
    }

    /// Returns the error code associated with the error.
    pub fn code(&self) -> (c: u16)
        ensures
            c == self.spec_code(),
    {
        match self {
            GrandExchangeError::MaxQuantity(_) => 479,
            GrandExchangeError::NotInStock(_) => 480,
            GrandExchangeError::NotThePrice(_) => 482,
            GrandExchangeError::TransactionInProgress(_) => 436,
            GrandExchangeError::NoOrders(_) => 431,
            GrandExchangeError::MaxOrders(_) => 433,
            GrandExchangeError::TooManyItems(_) => 434,
            GrandExchangeError::SameAccount(_) => 435,
            GrandExchangeError::InvalidItem(_) => 437,
            GrandExchangeError::NotYourOrder(_) => 438,
        }
    }

    /// Returns the error message associated with the error.
    pub fn message(&self) -> (m: String)
        ensures
            m@ == self.spec_message(),
    {
        match self {
            GrandExchangeError::MaxQuantity(msg) => msg.clone(),
            GrandExchangeError::NotInStock(msg) => msg.clone(),
            GrandExchangeError::NotThePrice(msg) => msg.clone(),
            GrandExchangeError::TransactionInProgress(msg) => msg.clone(),
            GrandExchangeError::NoOrders(msg) => msg.clone(),
            GrandExchangeError::MaxOrders(msg) => msg.clone(),
            GrandExchangeError::TooManyItems(msg) => msg.clone(),
            GrandExchangeError::SameAccount(msg) => msg.clone(),
            GrandExchangeError::InvalidItem(msg) => msg.clone(),
            GrandExchangeError::NotYourOrder(msg) => msg.clone(),
        }
    }
}

/// Bank related errors
#[derive(Debug, Clone)]
pub enum BankError {
    InsufficientGold(String),
    TransactionInProgress(String),
    Full(String),
}

impl BankError {

    /// The full error text: the bracketed code, the short description of
    /// the variant, and the carried message.
    pub open spec fn spec_display(&self) -> Seq<char> {
        match self {
            BankError::InsufficientGold(msg) => "[Error 460] Insufficient gold: "@ + msg@,
            BankError::TransactionInProgress(msg) => "[Error 461] Transaction in progress: "@ + msg@,
            BankError::Full(msg) => "[Error 462] Bank full: "@ + msg@,
        }
    }

    /// Returns the full error text: the bracketed code, the short
    /// description of the variant, and the carried message.
    pub fn display_string(&self) -> (t: String)
        ensures
            t@ == self.spec_display(),
    {
        match self {
            BankError::InsufficientGold(msg) => prefixed("[Error 460] Insufficient gold: ", msg),
            BankError::TransactionInProgress(msg) => prefixed("[Error 461] Transaction in progress: ", msg),
            BankError::Full(msg) => prefixed("[Error 462] Bank full: ", msg),
        }
    }
    /// The error code of this error, as a mathematical value.
    pub open spec fn spec_code(&self) -> u16 {
        match self {
            BankError::InsufficientGold(_) => 460,
            BankError::TransactionInProgress(_) => 461,
            BankError::Full(_) => 462,
        }
    }

    /// The message text carried by this error.
    pub open spec fn spec_message(&self) -> Seq<char> {
        match self {
            BankError::InsufficientGold(msg) => msg@,
            BankError::TransactionInProgress(msg) => msg@,
            BankError::Full(msg) => msg@,
        }
    }

    /// Returns the error code associated with the error.
    pub fn code(&self) -> (c: u16)
        ensures
            c == self.spec_code(),
    {
        match self {
            BankError::InsufficientGold(_) => 460,
            BankError::TransactionInProgress(_) => 461,
            BankError::Full(_) => 462,
        }
    }

    /// Returns the error message associated with the error.
    pub fn message(&self) -> (m: String)
        ensures
            m@ == self.spec_message(),
    {
        match self {
            BankError::InsufficientGold(msg) => msg.clone(),
            BankError::TransactionInProgress(msg) => msg.clone(),
            BankError::Full(msg) => msg.clone(),
        }
    }
}

/// Map related errors
#[derive(Debug, Clone)]
pub enum MapError {
    NotFound(String),
    ContentNotFound(String),
}

impl MapError {

    /// The full error text: the bracketed code, the short description of
    /// the variant, and the carried message.
    pub open spec fn spec_display(&self) -> Seq<char> {
        match self {
            MapError::NotFound(msg) => "[Error 597] Map not found: "@ + msg@,
            MapError::ContentNotFound(msg) => "[Error 598] Map content not found: "@ + msg@,
        }
    }

    /// Returns the full error text: the bracketed code, the short
    /// description of the variant, and the carried message.
    pub fn display_string(&self) -> (t: String)
        ensures
            t@ == self.spec_display(),
    {
        match self {
            MapError::NotFound(msg) => prefixed("[Error 597] Map not found: ", msg),
            MapError::ContentNotFound(msg) => prefixed("[Error 598] Map content not found: ", msg),
        }
    }
    /// The error code of this error, as a mathematical value.
    pub open spec fn spec_code(&self) -> u16 {
        match self {
            MapError::NotFound(_) => 597,
            MapError::ContentNotFound(_) => 598,
        }
    }

    /// The message text carried by this error.
    pub open spec fn spec_message(&self) -> Seq<char> {
        match self {
            MapError::NotFound(msg) => msg@,
            MapError::ContentNotFound(msg) => msg@,
        }
    }

    /// Returns the error code associated with the error.
    pub fn code(&self) -> (c: u16)
        ensures
            c == self.spec_code(),
    {
        match self {
            MapError::NotFound(_) => 597,
            MapError::ContentNotFound(_) => 598,
        }
    }

    /// Returns the error message associated with the error.
    pub fn message(&self) -> (m: String)
        ensures
            m@ == self.spec_message(),
    {
        match self {
            MapError::NotFound(msg) => msg.clone(),
            MapError::ContentNotFound(msg) => msg.clone(),
        }
    }
}

/// An overall API error type which can wrap any of the domain-specific errors
#[derive(Debug, Clone)]
pub enum ApiError {
    General(GeneralError),
    Account(AccountError),
    Character(CharacterError),
    Item(ItemError),
    GrandExchange(GrandExchangeError),
    Bank(BankError),
    Maps(MapError),
    UnknownError { code: u16, message: String },
}

impl ApiError {
    /// The error code of this error, as a mathematical value.
    pub open spec fn spec_code(&self) -> u16 {
        match self {
            ApiError::General(e) => e.spec_code(),
            ApiError::Account(e) => e.spec_code(),
            ApiError::Character(e) => e.spec_code(),
            ApiError::Item(e) => e.spec_code(),
            ApiError::GrandExchange(e) => e.spec_code(),
            ApiError::Bank(e) => e.spec_code(),
            ApiError::Maps(e) => e.spec_code(),
            ApiError::UnknownError { code, .. } => *code,
        }
    }

    /// The message text of this error: for a wrapped error, its full
    /// error text (code, description and carried message); for an unknown
    /// error, the raw message alone.
    pub open spec fn spec_message(&self) -> Seq<char> {
        match self {
            ApiError::General(e) => e.spec_display(),
            ApiError::Account(e) => e.spec_display(),
            ApiError::Character(e) => e.spec_display(),
            ApiError::Item(e) => e.spec_display(),
            ApiError::GrandExchange(e) => e.spec_display(),
            ApiError::Bank(e) => e.spec_display(),
            ApiError::Maps(e) => e.spec_display(),
            ApiError::UnknownError { message, .. } => message@,
        }
    }

    /// Returns the error code associated with the error.
    pub fn code(&self) -> (c: u16)
        ensures
            c == self.spec_code(),
    {
        match self {
            ApiError::General(e) => e.code(),
            ApiError::Account(e) => e.code(),
            ApiError::Character(e) => e.code(),
            ApiError::Item(e) => e.code(),
            ApiError::GrandExchange(e) => e.code(),
            ApiError::Bank(e) => e.code(),
            ApiError::Maps(e) => e.code(),
            ApiError::UnknownError { code, .. } => *code,
        }
    }

    /// Returns the error message associated with the error: the wrapped
    /// error's full error text, or an unknown error's raw message.
    pub fn message(&self) -> (m: String)
        ensures
            m@ == self.spec_message(),
    {
        match self {
            ApiError::General(e) => e.display_string(),
            ApiError::Account(e) => e.display_string(),
            ApiError::Character(e) => e.display_string(),
            ApiError::Item(e) => e.display_string(),
            ApiError::GrandExchange(e) => e.display_string(),
            ApiError::Bank(e) => e.display_string(),
            ApiError::Maps(e) => e.display_string(),
            ApiError::UnknownError { message, .. } => message.clone(),
        }
    }
}

} // verus!
