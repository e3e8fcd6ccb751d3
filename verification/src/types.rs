//! The platform's role and billing vocabularies, one enum per service.

use crate::strutil::str_eq;
use vstd::prelude::*;

verus! {

/// A caller role on the stores service.
#[derive(Clone, Copy, Debug, PartialEq, Eq, Hash, Structural)]
pub enum StoresRole {
    Superuser,
    User,
    Moderator,
    PlatformAdmin,
}

impl StoresRole {
    /// The wire name of the variant.
    pub open spec fn as_str_spec(self) -> Seq<char> {
        match self {
            StoresRole::Superuser => "superuser"@,
            StoresRole::User => "user"@,
            StoresRole::Moderator => "moderator"@,
            StoresRole::PlatformAdmin => "platform_admin"@,
        }
    }

    /// Which variant a wire name denotes, if any.
    pub open spec fn from_str_spec(s: Seq<char>) -> Option<StoresRole> {
        if s == "superuser"@ {
            Some(StoresRole::Superuser)
        } else if s == "user"@ {
            Some(StoresRole::User)
        } else if s == "moderator"@ {
            Some(StoresRole::Moderator)
        } else if s == "platform_admin"@ {
            Some(StoresRole::PlatformAdmin)
        } else {
            None
        }
    }

    /// The wire name of the variant.
    pub fn as_str(&self) -> (r: &'static str)
        ensures
            r@ == self.as_str_spec(),
    {
        match self {
            StoresRole::Superuser => "superuser",
            StoresRole::User => "user",
            StoresRole::Moderator => "moderator",
            StoresRole::PlatformAdmin => "platform_admin",
        }
    }

    /// Parse a wire name.
    pub fn from_str(s: &str) -> (r: Option<StoresRole>)
        ensures
            r == StoresRole::from_str_spec(s@),
    {
        if str_eq(s, "superuser") {
            Some(StoresRole::Superuser)
        } else if str_eq(s, "user") {
            Some(StoresRole::User)
        } else if str_eq(s, "moderator") {
            Some(StoresRole::Moderator)
        } else if str_eq(s, "platform_admin") {
            Some(StoresRole::PlatformAdmin)
        } else {
            None
        }
    }
}

/// A caller role on the users service.
#[derive(Clone, Copy, Debug, PartialEq, Eq, Hash, Structural)]
pub enum UsersRole {
    Superuser,
    User,
    Moderator,
}

impl UsersRole {
    /// The wire name of the variant.
    pub open spec fn as_str_spec(self) -> Seq<char> {
        match self {
            UsersRole::Superuser => "superuser"@,
            UsersRole::User => "user"@,
            UsersRole::Moderator => "moderator"@,
        }
    }

    /// Which variant a wire name denotes, if any.
    pub open spec fn from_str_spec(s: Seq<char>) -> Option<UsersRole> {
        if s == "superuser"@ {
            Some(UsersRole::Superuser)
        } else if s == "user"@ {
            Some(UsersRole::User)
        } else if s == "moderator"@ {
            Some(UsersRole::Moderator)
        } else {
            None
        }
    }

    /// The wire name of the variant.
    pub fn as_str(&self) -> (r: &'static str)
        ensures
            r@ == self.as_str_spec(),
    {
        match self {
            UsersRole::Superuser => "superuser",
            UsersRole::User => "user",
            UsersRole::Moderator => "moderator",
        }
    }

    /// Parse a wire name.
    pub fn from_str(s: &str) -> (r: Option<UsersRole>)
        ensures
            r == UsersRole::from_str_spec(s@),
    {
        if str_eq(s, "superuser") {
            Some(UsersRole::Superuser)
        } else if str_eq(s, "user") {
            Some(UsersRole::User)
        } else if str_eq(s, "moderator") {
            Some(UsersRole::Moderator)
        } else {
            None
        }
    }
}

/// A caller role on the billing service.
#[derive(Clone, Copy, Debug, PartialEq, Eq, Hash, Structural)]
pub enum BillingRole {
    Superuser,
    User,
    StoreManager,
    FinancialManager,
}

impl BillingRole {
    /// The wire name of the variant.
    pub open spec fn as_str_spec(self) -> Seq<char> {
        match self {
            BillingRole::Superuser => "superuser"@,
            BillingRole::User => "user"@,
            BillingRole::StoreManager => "store_manager"@,
            BillingRole::FinancialManager => "financial_manager"@,
        }
    }

    /// Which variant a wire name denotes, if any.
    pub open spec fn from_str_spec(s: Seq<char>) -> Option<BillingRole> {
        if s == "superuser"@ {
            Some(BillingRole::Superuser)
        } else if s == "user"@ {
            Some(BillingRole::User)
        } else if s == "store_manager"@ {
            Some(BillingRole::StoreManager)
        } else if s == "financial_manager"@ {
            Some(BillingRole::FinancialManager)
        } else {
            None
        }
    }

    /// The wire name of the variant.
    pub fn as_str(&self) -> (r: &'static str)
        ensures
            r@ == self.as_str_spec(),
    {
        match self {
            BillingRole::Superuser => "superuser",
            BillingRole::User => "user",
            BillingRole::StoreManager => "store_manager",
            BillingRole::FinancialManager => "financial_manager",
        }
    }

    /// Parse a wire name.
    pub fn from_str(s: &str) -> (r: Option<BillingRole>)
        ensures
            r == BillingRole::from_str_spec(s@),
    {
        if str_eq(s, "superuser") {
            Some(BillingRole::Superuser)
        } else if str_eq(s, "user") {
            Some(BillingRole::User)
        } else if str_eq(s, "store_manager") {
            Some(BillingRole::StoreManager)
        } else if str_eq(s, "financial_manager") {
            Some(BillingRole::FinancialManager)
        } else {
            None
        }
    }
}

/// A caller role on the delivery service.
#[derive(Clone, Copy, Debug, PartialEq, Eq, Hash, Structural)]
pub enum DeliveryRole {
    Superuser,
    User,
    StoreManager,
}

impl DeliveryRole {
    /// The wire name of the variant.
    pub open spec fn as_str_spec(self) -> Seq<char> {
        match self {
            DeliveryRole::Superuser => "superuser"@,
            DeliveryRole::User => "user"@,
            DeliveryRole::StoreManager => "store_manager"@,
        }
    }

    /// Which variant a wire name denotes, if any.
    pub open spec fn from_str_spec(s: Seq<char>) -> Option<DeliveryRole> {
        if s == "superuser"@ {
            Some(DeliveryRole::Superuser)
        } else if s == "user"@ {
            Some(DeliveryRole::User)
        } else if s == "store_manager"@ {
            Some(DeliveryRole::StoreManager)
        } else {
            None
        }
    }

    /// The wire name of the variant.
    pub fn as_str(&self) -> (r: &'static str)
        ensures
            r@ == self.as_str_spec(),
    {
        match self {
            DeliveryRole::Superuser => "superuser",
            DeliveryRole::User => "user",
            DeliveryRole::StoreManager => "store_manager",
        }
    }

    /// Parse a wire name.
    pub fn from_str(s: &str) -> (r: Option<DeliveryRole>)
        ensures
            r == DeliveryRole::from_str_spec(s@),
    {
        if str_eq(s, "superuser") {
            Some(DeliveryRole::Superuser)
        } else if str_eq(s, "user") {
            Some(DeliveryRole::User)
        } else if str_eq(s, "store_manager") {
            Some(DeliveryRole::StoreManager)
        } else {
            None
        }
    }
}

/// A caller role on the orders service.
#[derive(Clone, Copy, Debug, PartialEq, Eq, Hash, Structural)]
pub enum OrderRole {
    Superuser,
    User,
    StoreManager,
}

impl OrderRole {
    /// The wire name of the variant.
    pub open spec fn as_str_spec(self) -> Seq<char> {
        match self {
            OrderRole::Superuser => "superuser"@,
            OrderRole::User => "user"@,
            OrderRole::StoreManager => "store_manager"@,
        }
    }

    /// Which variant a wire name denotes, if any.
    pub open spec fn from_str_spec(s: Seq<char>) -> Option<OrderRole> {
        if s == "superuser"@ {
            Some(OrderRole::Superuser)
        } else if s == "user"@ {
            Some(OrderRole::User)
        } else if s == "store_manager"@ {
            Some(OrderRole::StoreManager)
        } else {
            None
        }
    }

    /// The wire name of the variant.
    pub fn as_str(&self) -> (r: &'static str)
        ensures
            r@ == self.as_str_spec(),
    {
        match self {
            OrderRole::Superuser => "superuser",
            OrderRole::User => "user",
            OrderRole::StoreManager => "store_manager",
        }
    }

    /// Parse a wire name.
    pub fn from_str(s: &str) -> (r: Option<OrderRole>)
        ensures
            r == OrderRole::from_str_spec(s@),
    {
        if str_eq(s, "superuser") {
            Some(OrderRole::Superuser)
        } else if str_eq(s, "user") {
            Some(OrderRole::User)
        } else if str_eq(s, "store_manager") {
            Some(OrderRole::StoreManager)
        } else {
            None
        }
    }
}

/// A caller role on the warehouses service.
#[derive(Clone, Copy, Debug, PartialEq, Eq, Hash, Structural)]
pub enum WarehouseRole {
    Superuser,
    User,
    StoreManager,
}

impl WarehouseRole {
    /// The wire name of the variant.
    pub open spec fn as_str_spec(self) -> Seq<char> {
        match self {
            WarehouseRole::Superuser => "superuser"@,
            WarehouseRole::User => "user"@,
            WarehouseRole::StoreManager => "store_manager"@,
        }
    }

    /// Which variant a wire name denotes, if any.
    pub open spec fn from_str_spec(s: Seq<char>) -> Option<WarehouseRole> {
        if s == "superuser"@ {
            Some(WarehouseRole::Superuser)
        } else if s == "user"@ {
            Some(WarehouseRole::User)
        } else if s == "store_manager"@ {
            Some(WarehouseRole::StoreManager)
        } else {
            None
        }
    }

    /// The wire name of the variant.
    pub fn as_str(&self) -> (r: &'static str)
        ensures
            r@ == self.as_str_spec(),
    {
        match self {
            WarehouseRole::Superuser => "superuser",
            WarehouseRole::User => "user",
            WarehouseRole::StoreManager => "store_manager",
        }
    }

    /// Parse a wire name.
    pub fn from_str(s: &str) -> (r: Option<WarehouseRole>)
        ensures
            r == WarehouseRole::from_str_spec(s@),
    {
        if str_eq(s, "superuser") {
            Some(WarehouseRole::Superuser)
        } else if str_eq(s, "user") {
            Some(WarehouseRole::User)
        } else if str_eq(s, "store_manager") {
            Some(WarehouseRole::StoreManager)
        } else {
            None
        }
    }
}

/// Who a merchant account belongs to.
#[derive(Clone, Copy, Debug, PartialEq, Eq, Hash, Structural)]
pub enum MerchantType {
    Store,
    User,
}

/// Which billing scheme applies.
#[derive(Clone, Copy, Debug, PartialEq, Eq, Hash, Structural)]
pub enum BillingType {
    International,
    Russia,
}

/// The identity of a user.
#[derive(Clone, Copy, Debug, PartialEq, Eq, Hash, Structural)]
pub struct UserId(pub i32);

/// The identity of an anonymous session.
#[derive(Clone, Copy, Debug, PartialEq, Eq, Hash, Structural)]
pub struct SessionId(pub i32);

/// The identity of a store.
#[derive(Clone, Copy, Debug, PartialEq, Eq, Hash, Structural)]
pub struct StoreId(pub i32);

/// The short number of an order.
#[derive(Clone, Copy, Debug, PartialEq, Eq, Hash, Structural)]
pub struct OrderSlug(pub i32);

/// The identity of a delivery company package.
#[derive(Clone, Copy, Debug, PartialEq, Eq, Hash, Structural)]
pub struct CompanyPackageId(pub i32);

/// The identity of a pickup option.
#[derive(Clone, Copy, Debug, PartialEq, Eq, Hash, Structural)]
pub struct PickupId(pub i32);

/// The identity of a shipping option.
#[derive(Clone, Copy, Debug, PartialEq, Eq, Hash, Structural)]
pub struct ShippingId(pub i32);

/// The unique identity of an order, a 128-bit identifier.
#[derive(Clone, Copy, Debug, PartialEq, Eq, Hash, Structural)]
pub struct OrderId(pub u128);

/// The unique identity of a warehouse, a 128-bit identifier.
#[derive(Clone, Copy, Debug, PartialEq, Eq, Hash, Structural)]
pub struct WarehouseId(pub u128);

/// The unique identity of a page, a 128-bit identifier.
#[derive(Clone, Copy, Debug, PartialEq, Eq, Hash, Structural)]
pub struct PageId(pub u128);

/// The short name of a warehouse.
#[derive(Clone, Debug, PartialEq, Eq, Hash)]
pub struct WarehouseSlug(pub String);

/// The short name of a page.
#[derive(Clone, Debug, PartialEq, Eq, Hash)]
pub struct PageSlug(pub String);

/// The short name of a store.
#[derive(Clone, Debug, PartialEq, Eq, Hash)]
pub struct StoreSlug(pub String);

/// Anything that can uniquely identify a warehouse.
#[derive(Clone, Debug, PartialEq, Eq, Hash)]
pub enum WarehouseIdentifier {
    Id(WarehouseId),
    Slug(WarehouseSlug),
}

/// Anything that can uniquely identify an order.
#[derive(Clone, Copy, Debug, PartialEq, Eq, Hash, Structural)]
pub enum OrderIdentifier {
    Id(OrderId),
    Slug(OrderSlug),
}

/// Anything that can uniquely identify a page.
#[derive(Clone, Debug, PartialEq, Eq, Hash)]
pub enum PageIdentifier {
    Id(PageId),
    Slug(PageSlug),
}

/// Anything that can uniquely identify a store.
#[derive(Clone, Debug, PartialEq, Eq, Hash)]
pub enum StoreIdentifier {
    Id(StoreId),
    Slug(StoreSlug),
}

/// Who owns a cart: a known user or an anonymous session.
#[derive(Clone, Copy, Debug, PartialEq, Eq, Hash, Structural)]
pub enum CartCustomer {
    User(UserId),
    Anonymous(SessionId),
}

/// How an order is to be delivered.
#[derive(Clone, Copy, Debug, PartialEq, Eq, Hash, Structural)]
pub enum DeliveryMethodId {
    Package { id: CompanyPackageId },
    Pickup { id: PickupId },
    ShippingPackage { id: ShippingId },
}

} // verus!
