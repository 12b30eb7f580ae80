//! Monetization types for Discord's premium features.
//!
//! Includes entitlements, subscriptions, and SKUs.
use vstd::prelude::*;
use crate::Snowflake;

verus! {

/// An entitlement represents a user's access to a premium offering.
#[derive(Debug, Clone)]
pub struct Entitlement {
    /// ID of the entitlement.
    pub id: Snowflake,

    /// ID of the SKU.
    pub sku_id: Snowflake,

    /// ID of the parent application.
    pub application_id: Snowflake,

    /// ID of the user that is granted access.
    pub user_id: Option<Snowflake>,

    /// Type of entitlement.
    pub entitlement_type: EntitlementType,

    /// Whether the entitlement was deleted.
    pub deleted: bool,

    /// Start date at which the entitlement is valid (ISO8601 timestamp).
    pub starts_at: Option<String>,

    /// Date at which the entitlement is no longer valid (ISO8601 timestamp).
    pub ends_at: Option<String>,

    /// ID of the guild that is granted access.
    pub guild_id: Option<Snowflake>,

    /// Whether the entitlement has been consumed.
    pub consumed: bool,
}

/// Type of entitlement.
#[derive(Debug, Clone, Copy, PartialEq, Eq, Structural)]
pub enum EntitlementType {
    /// Entitlement was purchased by user.
    Purchase,
    /// Entitlement for Discord Nitro subscription.
    PremiumSubscription,
    /// Entitlement was gifted by developer.
    DeveloperGift,
    /// Entitlement was purchased by a dev in application test mode.
    TestModePurchase,
    /// Entitlement was granted when the SKU was free.
    FreePurchase,
    /// Entitlement was gifted by another user.
    UserGift,
    /// Entitlement was claimed by user for free as a Nitro subscriber.
    PremiumPurchase,
    /// Entitlement was purchased as an app subscription.
    ApplicationSubscription,
}

/// A subscription represents a user's recurring purchase.
#[derive(Debug, Clone)]
pub struct Subscription {
    /// ID of the subscription.
    pub id: Snowflake,

    /// ID of the user who is subscribed.
    pub user_id: Snowflake,

    /// List of SKUs subscribed to.
    pub sku_ids: Vec<Snowflake>,

    /// List of entitlements granted for this subscription.
    pub entitlement_ids: Vec<Snowflake>,

    /// Start of the current subscription period (ISO8601 timestamp).
    pub current_period_start: String,

    /// End of the current subscription period (ISO8601 timestamp).
    pub current_period_end: String,

    /// Current status of the subscription.
    pub status: SubscriptionStatus,

    /// When the subscription was canceled (ISO8601 timestamp).
    pub canceled_at: Option<String>,

    /// ISO3166-1 alpha-2 country code of the payment source.
    pub country: Option<String>,
}

/// Status of a subscription.
#[derive(Debug, Clone, Copy, PartialEq, Eq, Structural)]
pub enum SubscriptionStatus {
    /// Subscription is active and scheduled to renew.
    Active,
    /// Subscription is active but will not renew.
    Ending,
    /// Subscription is inactive and not being charged.
    Inactive,
}

/// A SKU (Stock Keeping Unit) represents a premium offering.
#[derive(Debug, Clone)]
pub struct Sku {
    /// ID of SKU.
    pub id: Snowflake,

    /// Type of SKU.
    pub sku_type: SkuType,

    /// ID of the parent application.
    pub application_id: Snowflake,

    /// Customer-facing name of the premium offering.
    pub name: String,

    /// System-generated URL slug based on the SKU's name.
    pub slug: String,

    /// SKU flags as a bitfield.
    pub flags: u64,
}

/// Type of SKU.
#[derive(Debug, Clone, Copy, PartialEq, Eq, Structural)]
pub enum SkuType {
    /// Durable one-time purchase.
    Durable,
    /// Consumable one-time purchase.
    Consumable,
    /// Recurring subscription.
    Subscription,
    /// System-generated SKU applied to a subscription.
    SubscriptionGroup,
}

/// The wire code of a `EntitlementType`.
pub open spec fn entitlement_type_code(v: EntitlementType) -> u8 {
    match v {
        EntitlementType::Purchase => 1,
        EntitlementType::PremiumSubscription => 2,
        EntitlementType::DeveloperGift => 3,
        EntitlementType::TestModePurchase => 4,
        EntitlementType::FreePurchase => 5,
        EntitlementType::UserGift => 6,
        EntitlementType::PremiumPurchase => 7,
        EntitlementType::ApplicationSubscription => 8,
    }
}

impl EntitlementType {
    /// The wire code of this value.
    pub fn code(&self) -> (r: u8)
        ensures
            r == entitlement_type_code(*self),
    {
        match self {
            EntitlementType::Purchase => 1,
            EntitlementType::PremiumSubscription => 2,
            EntitlementType::DeveloperGift => 3,
            EntitlementType::TestModePurchase => 4,
            EntitlementType::FreePurchase => 5,
            EntitlementType::UserGift => 6,
            EntitlementType::PremiumPurchase => 7,
            EntitlementType::ApplicationSubscription => 8,
        }
    }

    /// The value with this wire code, if any.
    pub fn from_code(code: u8) -> (r: Option<EntitlementType>)
        ensures
            r matches Some(v) ==> entitlement_type_code(v) == code,
            forall|v: EntitlementType| #[trigger] entitlement_type_code(v) == code ==> r == Some(v),
    {
        match code {
            1 => Some(EntitlementType::Purchase),
            2 => Some(EntitlementType::PremiumSubscription),
            3 => Some(EntitlementType::DeveloperGift),
            4 => Some(EntitlementType::TestModePurchase),
            5 => Some(EntitlementType::FreePurchase),
            6 => Some(EntitlementType::UserGift),
            7 => Some(EntitlementType::PremiumPurchase),
            8 => Some(EntitlementType::ApplicationSubscription),
            _ => None,
        }
    }
}

/// The wire code of a `SubscriptionStatus`.
pub open spec fn subscription_status_code(v: SubscriptionStatus) -> u8 {
    match v {
        SubscriptionStatus::Active => 0,
        SubscriptionStatus::Ending => 1,
        SubscriptionStatus::Inactive => 2,
    }
}

impl SubscriptionStatus {
    /// The wire code of this value.
    pub fn code(&self) -> (r: u8)
        ensures
            r == subscription_status_code(*self),
    {
        match self {
            SubscriptionStatus::Active => 0,
            SubscriptionStatus::Ending => 1,
            SubscriptionStatus::Inactive => 2,
        }
    }

    /// The value with this wire code, if any.
    pub fn from_code(code: u8) -> (r: Option<SubscriptionStatus>)
        ensures
            r matches Some(v) ==> subscription_status_code(v) == code,
            forall|v: SubscriptionStatus| #[trigger] subscription_status_code(v) == code ==> r == Some(v),
    {
        match code {
            0 => Some(SubscriptionStatus::Active),
            1 => Some(SubscriptionStatus::Ending),
            2 => Some(SubscriptionStatus::Inactive),
            _ => None,
        }
    }
}

/// The wire code of a `SkuType`.
pub open spec fn sku_type_code(v: SkuType) -> u8 {
    match v {
        SkuType::Durable => 2,
        SkuType::Consumable => 3,
        SkuType::Subscription => 5,
        SkuType::SubscriptionGroup => 6,
    }
}

impl SkuType {
    /// The wire code of this value.
    pub fn code(&self) -> (r: u8)
        ensures
            r == sku_type_code(*self),
    {
        match self {
            SkuType::Durable => 2,
            SkuType::Consumable => 3,
            SkuType::Subscription => 5,
            SkuType::SubscriptionGroup => 6,
        }
    }

    /// The value with this wire code, if any.
    pub fn from_code(code: u8) -> (r: Option<SkuType>)
        ensures
            r matches Some(v) ==> sku_type_code(v) == code,
            forall|v: SkuType| #[trigger] sku_type_code(v) == code ==> r == Some(v),
    {
        match code {
            2 => Some(SkuType::Durable),
            3 => Some(SkuType::Consumable),
            5 => Some(SkuType::Subscription),
            6 => Some(SkuType::SubscriptionGroup),
            _ => None,
        }
    }
}

} // verus!
