//! Shared route vocabulary: the caller roles and the platform's services.

use crate::strutil::str_eq;
use vstd::prelude::*;

verus! {

/// A caller role on the platform.
#[derive(Clone, Copy, Debug, PartialEq, Eq, Hash, Structural)]
pub enum Role {
    Superuser,
    User,
}

impl Role {
    /// The wire name of the role.
    pub open spec fn as_str_spec(self) -> Seq<char> {
        match self {
            Role::Superuser => "superuser"@,
            Role::User => "user"@,
        }
    }

    /// Which role a wire name denotes, if any.
    pub open spec fn from_str_spec(s: Seq<char>) -> Option<Role> {
        if s == "superuser"@ {
            Some(Role::Superuser)
        } else if s == "user"@ {
            Some(Role::User)
        } else {
            None
        }
    }

    /// The wire name of the role.
    pub fn as_str(&self) -> (r: &'static str)
        ensures
            r@ == self.as_str_spec(),
    {
        match self {
            Role::Superuser => "superuser",
            Role::User => "user",
        }
    }

    /// Parse a wire name.
    pub fn from_str(s: &str) -> (r: Option<Role>)
        ensures
            r == Role::from_str_spec(s@),
    {
        if str_eq(s, "superuser") {
            Some(Role::Superuser)
        } else if str_eq(s, "user") {
            Some(Role::User)
        } else {
            None
        }
    }
}

/// A role to be granted to a user.
#[derive(Clone, Copy, Debug, PartialEq, Eq, Hash, Structural)]
pub struct NewUserRole {
    pub user_id: i32,
    pub role: Role,
}

/// One of the platform's services.
#[derive(Clone, Copy, Debug, PartialEq, Eq, Hash, Structural)]
pub enum Service {
    Users,
    Stores,
    Orders,
    Warehouses,
    Notifications,
    Billing,
    Delivery,
}

impl Service {
    /// The wire name of the service.
    pub open spec fn as_str_spec(self) -> Seq<char> {
        match self {
            Service::Users => "users"@,
            Service::Stores => "stores"@,
            Service::Orders => "orders"@,
            Service::Warehouses => "warehouses"@,
            Service::Notifications => "notifications"@,
            Service::Billing => "billing"@,
            Service::Delivery => "delivery"@,
        }
    }

    /// Which service a wire name denotes, if any.
    pub open spec fn from_str_spec(s: Seq<char>) -> Option<Service> {
        if s == "users"@ {
            Some(Service::Users)
        } else if s == "stores"@ {
            Some(Service::Stores)
        } else if s == "orders"@ {
            Some(Service::Orders)
        } else if s == "warehouses"@ {
            Some(Service::Warehouses)
        } else if s == "notifications"@ {
            Some(Service::Notifications)
        } else if s == "billing"@ {
            Some(Service::Billing)
        } else if s == "delivery"@ {
            Some(Service::Delivery)
        } else {
            None
        }
    }

    /// The wire name of the service.
    pub fn as_str(&self) -> (r: &'static str)
        ensures
            r@ == self.as_str_spec(),
    {
        match self {
            Service::Users => "users",
            Service::Stores => "stores",
            Service::Orders => "orders",
            Service::Warehouses => "warehouses",
            Service::Notifications => "notifications",
            Service::Billing => "billing",
            Service::Delivery => "delivery",
        }
    }

    /// Parse a wire name.
    pub fn from_str(s: &str) -> (r: Option<Service>)
        ensures
            r == Service::from_str_spec(s@),
    {
        if str_eq(s, "users") {
            Some(Service::Users)
        } else if str_eq(s, "stores") {
            Some(Service::Stores)
        } else if str_eq(s, "orders") {
            Some(Service::Orders)
        } else if str_eq(s, "warehouses") {
            Some(Service::Warehouses)
        } else if str_eq(s, "notifications") {
            Some(Service::Notifications)
        } else if str_eq(s, "billing") {
            Some(Service::Billing)
        } else if str_eq(s, "delivery") {
            Some(Service::Delivery)
        } else {
            None
        }
    }
}

} // verus!
