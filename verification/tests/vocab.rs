use stq_core::cache::{InMemoryCache, NullCache};
use stq_core::resources::{
    CommitterRole, CurrencyType, Device, Gender, Language, ModerationStatus, OrderState, Project,
    Provider, TokenType,
};
use stq_core::routes::{NewUserRole, Role, Service};
use stq_core::strutil::{i64_to_string, str_eq, str_lt, u64_to_string};
use stq_core::types::{
    BillingRole, BillingType, DeliveryRole, MerchantType, OrderRole, StoresRole, UsersRole,
    WarehouseRole,
};

#[test]
fn decimal_rendering_is_exact() {
    assert_eq!(u64_to_string(0), "0");
    assert_eq!(u64_to_string(7), "7");
    assert_eq!(u64_to_string(123), "123");
    assert_eq!(u64_to_string(1000001), "1000001");
    assert_eq!(i64_to_string(-5), "-5");
    assert_eq!(i64_to_string(42), "42");
    assert_eq!(i64_to_string(i64::MIN), "-9223372036854775808");
}

#[test]
fn string_order_is_lexicographic_with_prefix_first() {
    assert!(str_lt("a", "ab"));
    assert!(str_lt("ab", "b"));
    assert!(!str_lt("b", "ab"));
    assert!(!str_lt("a", "a"));
    assert!(str_eq("same", "same"));
    assert!(!str_eq("same", "other"));
}

#[test]
fn roles_and_services_round_trip() {
    assert_eq!(Role::from_str(Role::Superuser.as_str()), Some(Role::Superuser));
    assert_eq!(Role::from_str("user"), Some(Role::User));
    assert_eq!(Role::from_str("emperor"), None);
    let all = [
        Service::Users,
        Service::Stores,
        Service::Orders,
        Service::Warehouses,
        Service::Notifications,
        Service::Billing,
        Service::Delivery,
    ];
    for s in all {
        assert_eq!(Service::from_str(s.as_str()), Some(s));
    }
    assert_eq!(Service::from_str("mail"), None);
    let n = NewUserRole {
        user_id: 3,
        role: Role::User,
    };
    assert_eq!(n, NewUserRole {
        user_id: 3,
        role: Role::User,
    });
}

#[test]
fn service_role_enums_round_trip() {
    assert_eq!(
        StoresRole::from_str("platform_admin"),
        Some(StoresRole::PlatformAdmin)
    );
    assert_eq!(StoresRole::from_str("nobody"), None);
    assert_eq!(UsersRole::Moderator.as_str(), "moderator");
    assert_eq!(
        BillingRole::from_str("financial_manager"),
        Some(BillingRole::FinancialManager)
    );
    assert_eq!(DeliveryRole::StoreManager.as_str(), "store_manager");
    assert_eq!(OrderRole::from_str("superuser"), Some(OrderRole::Superuser));
    assert_eq!(
        WarehouseRole::from_str("store_manager"),
        Some(WarehouseRole::StoreManager)
    );
    assert_eq!(MerchantType::Store, MerchantType::Store);
    assert_ne!(BillingType::International, BillingType::Russia);
}

#[test]
fn resource_enums_round_trip() {
    assert_eq!(CommitterRole::from_str("seller"), Some(CommitterRole::Seller));
    assert_eq!(CurrencyType::Crypto.as_str(), "crypto");
    assert_eq!(Gender::from_str("female"), Some(Gender::Female));
    assert_eq!(Gender::from_str("other"), None);
    assert_eq!(Provider::from_str("facebook"), Some(Provider::Facebook));
    assert_eq!(TokenType::from_str("email_verify"), Some(TokenType::EmailVerify));
    assert_eq!(
        ModerationStatus::from_str("published"),
        Some(ModerationStatus::Published)
    );
    assert_eq!(OrderState::PaymentAwaited.as_str(), "Payment Awaited");
    assert_eq!(
        OrderState::from_str("Transaction pending"),
        Some(OrderState::TransactionPending)
    );
    assert_eq!(OrderState::from_str("transaction_pending"), None);
    assert_eq!(Project::default(), Project::MarketPlace);
}

#[test]
fn enum_listings_are_complete_and_ordered() {
    assert_eq!(Device::as_vec(), vec![Device::IOS, Device::WEB, Device::Android]);
    assert_eq!(
        ModerationStatus::as_vec(),
        vec![
            ModerationStatus::Draft,
            ModerationStatus::Moderation,
            ModerationStatus::Decline,
            ModerationStatus::Blocked,
            ModerationStatus::Published,
        ]
    );
    assert_eq!(Project::as_vec(), vec![Project::MarketPlace, Project::Wallet]);
    let langs = Language::as_vec();
    assert_eq!(langs.len(), 9);
    assert_eq!(langs[0].iso_code, "en");
    assert_eq!(langs[8].iso_code, "ja");
}

#[test]
fn in_memory_cache_stores_and_replaces() {
    let mut cache: InMemoryCache<i64> = InMemoryCache::new();
    assert_eq!(cache.get("k"), Ok(None));
    assert_eq!(cache.set("k", 1), Ok(()));
    assert_eq!(cache.get("k"), Ok(Some(&1)));
    assert_eq!(cache.set("k", 2), Ok(()));
    assert_eq!(cache.get("k"), Ok(Some(&2)));
    assert_eq!(cache.set("other", 9), Ok(()));
    assert_eq!(cache.remove("k"), Ok(true));
    assert_eq!(cache.get("k"), Ok(None));
    assert_eq!(cache.get("other"), Ok(Some(&9)));
    assert_eq!(cache.remove("missing"), Ok(false));
}

#[test]
fn null_cache_stores_nothing() {
    let cache: NullCache<i64, ()> = NullCache::new();
    assert_eq!(cache.set("k", 1), Ok(()));
    assert_eq!(cache.get("k"), Ok(None));
    assert_eq!(cache.remove("k"), Ok(false));
}
