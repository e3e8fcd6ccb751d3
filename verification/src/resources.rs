//! The platform's static vocabularies: languages, device kinds, statuses,
//! providers and the other shared enums, each with its exact wire names.

use crate::strutil::str_eq;
use vstd::prelude::*;

verus! {

/// The kind of values a product attribute holds.
#[derive(Clone, Copy, Debug, PartialEq, Eq, Hash, Structural)]
pub enum AttributeType {
    Str,
    Float,
}

/// Who committed an order state change.
#[derive(Clone, Copy, Debug, PartialEq, Eq, Hash, Structural)]
pub enum CommitterRole {
    System,
    Customer,
    Seller,
}

impl CommitterRole {
    /// The wire name of the variant.
    pub open spec fn as_str_spec(self) -> Seq<char> {
        match self {
            CommitterRole::System => "system"@,
            CommitterRole::Customer => "customer"@,
            CommitterRole::Seller => "seller"@,
        }
    }

    /// Which variant a wire name denotes, if any.
    pub open spec fn from_str_spec(s: Seq<char>) -> Option<CommitterRole> {
        if s == "system"@ {
            Some(CommitterRole::System)
        } else if s == "customer"@ {
            Some(CommitterRole::Customer)
        } else if s == "seller"@ {
            Some(CommitterRole::Seller)
        } else {
            None
        }
    }

    /// The wire name of the variant.
    pub fn as_str(&self) -> (r: &'static str)
        ensures
            r@ == self.as_str_spec(),
    {
        match self {
            CommitterRole::System => "system",
            CommitterRole::Customer => "customer",
            CommitterRole::Seller => "seller",
        }
    }

    /// Parse a wire name.
    pub fn from_str(s: &str) -> (r: Option<CommitterRole>)
        ensures
            r == CommitterRole::from_str_spec(s@),
    {
        if str_eq(s, "system") {
            Some(CommitterRole::System)
        } else if str_eq(s, "customer") {
            Some(CommitterRole::Customer)
        } else if str_eq(s, "seller") {
            Some(CommitterRole::Seller)
        } else {
            None
        }
    }
}

/// Whether a currency is crypto or fiat.
#[derive(Clone, Copy, Debug, PartialEq, Eq, Hash, Structural)]
pub enum CurrencyType {
    Crypto,
    Fiat,
}

impl CurrencyType {
    /// The wire name of the variant.
    pub open spec fn as_str_spec(self) -> Seq<char> {
        match self {
            CurrencyType::Crypto => "crypto"@,
            CurrencyType::Fiat => "fiat"@,
        }
    }

    /// Which variant a wire name denotes, if any.
    pub open spec fn from_str_spec(s: Seq<char>) -> Option<CurrencyType> {
        if s == "crypto"@ {
            Some(CurrencyType::Crypto)
        } else if s == "fiat"@ {
            Some(CurrencyType::Fiat)
        } else {
            None
        }
    }

    /// The wire name of the variant.
    pub fn as_str(&self) -> (r: &'static str)
        ensures
            r@ == self.as_str_spec(),
    {
        match self {
            CurrencyType::Crypto => "crypto",
            CurrencyType::Fiat => "fiat",
        }
    }

    /// Parse a wire name.
    pub fn from_str(s: &str) -> (r: Option<CurrencyType>)
        ensures
            r == CurrencyType::from_str_spec(s@),
    {
        if str_eq(s, "crypto") {
            Some(CurrencyType::Crypto)
        } else if str_eq(s, "fiat") {
            Some(CurrencyType::Fiat)
        } else {
            None
        }
    }
}

/// The kind of device a session runs on.
#[derive(Clone, Copy, Debug, PartialEq, Eq, Hash, Structural)]
pub enum Device {
    IOS,
    WEB,
    Android,
}

impl Device {
    /// The wire name of the variant.
    pub open spec fn as_str_spec(self) -> Seq<char> {
        match self {
            Device::IOS => "ios"@,
            Device::WEB => "web"@,
            Device::Android => "android"@,
        }
    }

    /// Which variant a wire name denotes, if any.
    pub open spec fn from_str_spec(s: Seq<char>) -> Option<Device> {
        if s == "ios"@ {
            Some(Device::IOS)
        } else if s == "web"@ {
            Some(Device::WEB)
        } else if s == "android"@ {
            Some(Device::Android)
        } else {
            None
        }
    }

    /// The wire name of the variant.
    pub fn as_str(&self) -> (r: &'static str)
        ensures
            r@ == self.as_str_spec(),
    {
        match self {
            Device::IOS => "ios",
            Device::WEB => "web",
            Device::Android => "android",
        }
    }

    /// Parse a wire name.
    pub fn from_str(s: &str) -> (r: Option<Device>)
        ensures
            r == Device::from_str_spec(s@),
    {
        if str_eq(s, "ios") {
            Some(Device::IOS)
        } else if str_eq(s, "web") {
            Some(Device::WEB)
        } else if str_eq(s, "android") {
            Some(Device::Android)
        } else {
            None
        }
    }
}

impl Device {
    /// Every variant, in declaration order.
    pub fn as_vec() -> (r: Vec<Device>)
        ensures
            r@ == seq![Device::IOS, Device::WEB, Device::Android],
    {
        let mut v: Vec<Device> = Vec::new();
        v.push(Device::IOS);
        v.push(Device::WEB);
        v.push(Device::Android);
        proof {
            assert(v@ =~= seq![Device::IOS, Device::WEB, Device::Android]);
        }
        v
    }
}

/// A user's stated gender.
#[derive(Clone, Copy, Debug, PartialEq, Eq, Hash, Structural)]
pub enum Gender {
    Male,
    Female,
    Undefined,
}

impl Gender {
    /// The wire name of the variant.
    pub open spec fn as_str_spec(self) -> Seq<char> {
        match self {
            Gender::Male => "male"@,
            Gender::Female => "female"@,
            Gender::Undefined => "undefined"@,
        }
    }

    /// Which variant a wire name denotes, if any.
    pub open spec fn from_str_spec(s: Seq<char>) -> Option<Gender> {
        if s == "male"@ {
            Some(Gender::Male)
        } else if s == "female"@ {
            Some(Gender::Female)
        } else if s == "undefined"@ {
            Some(Gender::Undefined)
        } else {
            None
        }
    }

    /// The wire name of the variant.
    pub fn as_str(&self) -> (r: &'static str)
        ensures
            r@ == self.as_str_spec(),
    {
        match self {
            Gender::Male => "male",
            Gender::Female => "female",
            Gender::Undefined => "undefined",
        }
    }

    /// Parse a wire name.
    pub fn from_str(s: &str) -> (r: Option<Gender>)
        ensures
            r == Gender::from_str_spec(s@),
    {
        if str_eq(s, "male") {
            Some(Gender::Male)
        } else if str_eq(s, "female") {
            Some(Gender::Female)
        } else if str_eq(s, "undefined") {
            Some(Gender::Undefined)
        } else {
            None
        }
    }
}

/// The moderation status of a listing.
#[derive(Clone, Copy, Debug, PartialEq, Eq, Hash, Structural)]
pub enum ModerationStatus {
    Draft,
    Moderation,
    Decline,
    Blocked,
    Published,
}

impl ModerationStatus {
    /// The wire name of the variant.
    pub open spec fn as_str_spec(self) -> Seq<char> {
        match self {
            ModerationStatus::Draft => "draft"@,
            ModerationStatus::Moderation => "moderation"@,
            ModerationStatus::Decline => "decline"@,
            ModerationStatus::Blocked => "blocked"@,
            ModerationStatus::Published => "published"@,
        }
    }

    /// Which variant a wire name denotes, if any.
    pub open spec fn from_str_spec(s: Seq<char>) -> Option<ModerationStatus> {
        if s == "draft"@ {
            Some(ModerationStatus::Draft)
        } else if s == "moderation"@ {
            Some(ModerationStatus::Moderation)
        } else if s == "decline"@ {
            Some(ModerationStatus::Decline)
        } else if s == "blocked"@ {
            Some(ModerationStatus::Blocked)
        } else if s == "published"@ {
            Some(ModerationStatus::Published)
        } else {
            None
        }
    }

    /// The wire name of the variant.
    pub fn as_str(&self) -> (r: &'static str)
        ensures
            r@ == self.as_str_spec(),
    {
        match self {
            ModerationStatus::Draft => "draft",
            ModerationStatus::Moderation => "moderation",
            ModerationStatus::Decline => "decline",
            ModerationStatus::Blocked => "blocked",
            ModerationStatus::Published => "published",
        }
    }

    /// Parse a wire name.
    pub fn from_str(s: &str) -> (r: Option<ModerationStatus>)
        ensures
            r == ModerationStatus::from_str_spec(s@),
    {
        if str_eq(s, "draft") {
            Some(ModerationStatus::Draft)
        } else if str_eq(s, "moderation") {
            Some(ModerationStatus::Moderation)
        } else if str_eq(s, "decline") {
            Some(ModerationStatus::Decline)
        } else if str_eq(s, "blocked") {
            Some(ModerationStatus::Blocked)
        } else if str_eq(s, "published") {
            Some(ModerationStatus::Published)
        } else {
            None
        }
    }
}

impl ModerationStatus {
    /// Every variant, in declaration order.
    pub fn as_vec() -> (r: Vec<ModerationStatus>)
        ensures
            r@ == seq![ModerationStatus::Draft, ModerationStatus::Moderation, ModerationStatus::Decline, ModerationStatus::Blocked, ModerationStatus::Published],
    {
        let mut v: Vec<ModerationStatus> = Vec::new();
        v.push(ModerationStatus::Draft);
        v.push(ModerationStatus::Moderation);
        v.push(ModerationStatus::Decline);
        v.push(ModerationStatus::Blocked);
        v.push(ModerationStatus::Published);
        proof {
            assert(v@ =~= seq![ModerationStatus::Draft, ModerationStatus::Moderation, ModerationStatus::Decline, ModerationStatus::Blocked, ModerationStatus::Published]);
        }
        v
    }
}

/// The lifecycle state of an order.
#[derive(Clone, Copy, Debug, PartialEq, Eq, Hash, Structural)]
pub enum OrderState {
    New,
    PaymentAwaited,
    TransactionPending,
    AmountExpired,
    Paid,
    InProcessing,
    Cancelled,
    Sent,
    Delivered,
    Received,
    Dispute,
    Complete,
}

impl OrderState {
    /// The wire name of the variant.
    pub open spec fn as_str_spec(self) -> Seq<char> {
        match self {
            OrderState::New => "New"@,
            OrderState::PaymentAwaited => "Payment Awaited"@,
            OrderState::TransactionPending => "Transaction pending"@,
            OrderState::AmountExpired => "Amount expired"@,
            OrderState::Paid => "Paid"@,
            OrderState::InProcessing => "In processing"@,
            OrderState::Cancelled => "Cancelled"@,
            OrderState::Sent => "Sent"@,
            OrderState::Delivered => "Delivered"@,
            OrderState::Received => "Received"@,
            OrderState::Dispute => "Dispute"@,
            OrderState::Complete => "Complete"@,
        }
    }

    /// Which variant a wire name denotes, if any.
    pub open spec fn from_str_spec(s: Seq<char>) -> Option<OrderState> {
        if s == "New"@ {
            Some(OrderState::New)
        } else if s == "Payment Awaited"@ {
            Some(OrderState::PaymentAwaited)
        } else if s == "Transaction pending"@ {
            Some(OrderState::TransactionPending)
        } else if s == "Amount expired"@ {
            Some(OrderState::AmountExpired)
        } else if s == "Paid"@ {
            Some(OrderState::Paid)
        } else if s == "In processing"@ {
            Some(OrderState::InProcessing)
        } else if s == "Cancelled"@ {
            Some(OrderState::Cancelled)
        } else if s == "Sent"@ {
            Some(OrderState::Sent)
        } else if s == "Delivered"@ {
            Some(OrderState::Delivered)
        } else if s == "Received"@ {
            Some(OrderState::Received)
        } else if s == "Dispute"@ {
            Some(OrderState::Dispute)
        } else if s == "Complete"@ {
            Some(OrderState::Complete)
        } else {
            None
        }
    }

    /// The wire name of the variant.
    pub fn as_str(&self) -> (r: &'static str)
        ensures
            r@ == self.as_str_spec(),
    {
        match self {
            OrderState::New => "New",
            OrderState::PaymentAwaited => "Payment Awaited",
            OrderState::TransactionPending => "Transaction pending",
            OrderState::AmountExpired => "Amount expired",
            OrderState::Paid => "Paid",
            OrderState::InProcessing => "In processing",
            OrderState::Cancelled => "Cancelled",
            OrderState::Sent => "Sent",
            OrderState::Delivered => "Delivered",
            OrderState::Received => "Received",
            OrderState::Dispute => "Dispute",
            OrderState::Complete => "Complete",
        }
    }

    /// Parse a wire name.
    pub fn from_str(s: &str) -> (r: Option<OrderState>)
        ensures
            r == OrderState::from_str_spec(s@),
    {
        if str_eq(s, "New") {
            Some(OrderState::New)
        } else if str_eq(s, "Payment Awaited") {
            Some(OrderState::PaymentAwaited)
        } else if str_eq(s, "Transaction pending") {
            Some(OrderState::TransactionPending)
        } else if str_eq(s, "Amount expired") {
            Some(OrderState::AmountExpired)
        } else if str_eq(s, "Paid") {
            Some(OrderState::Paid)
        } else if str_eq(s, "In processing") {
            Some(OrderState::InProcessing)
        } else if str_eq(s, "Cancelled") {
            Some(OrderState::Cancelled)
        } else if str_eq(s, "Sent") {
            Some(OrderState::Sent)
        } else if str_eq(s, "Delivered") {
            Some(OrderState::Delivered)
        } else if str_eq(s, "Received") {
            Some(OrderState::Received)
        } else if str_eq(s, "Dispute") {
            Some(OrderState::Dispute)
        } else if str_eq(s, "Complete") {
            Some(OrderState::Complete)
        } else {
            None
        }
    }
}

/// Which project of the platform is addressed.
#[derive(Clone, Copy, Debug, PartialEq, Eq, Hash, Structural)]
pub enum Project {
    MarketPlace,
    Wallet,
}

impl Project {
    /// The wire name of the variant.
    pub open spec fn as_str_spec(self) -> Seq<char> {
        match self {
            Project::MarketPlace => "marketplace"@,
            Project::Wallet => "wallet"@,
        }
    }

    /// Which variant a wire name denotes, if any.
    pub open spec fn from_str_spec(s: Seq<char>) -> Option<Project> {
        if s == "marketplace"@ {
            Some(Project::MarketPlace)
        } else if s == "wallet"@ {
            Some(Project::Wallet)
        } else {
            None
        }
    }

    /// The wire name of the variant.
    pub fn as_str(&self) -> (r: &'static str)
        ensures
            r@ == self.as_str_spec(),
    {
        match self {
            Project::MarketPlace => "marketplace",
            Project::Wallet => "wallet",
        }
    }

    /// Parse a wire name.
    pub fn from_str(s: &str) -> (r: Option<Project>)
        ensures
            r == Project::from_str_spec(s@),
    {
        if str_eq(s, "marketplace") {
            Some(Project::MarketPlace)
        } else if str_eq(s, "wallet") {
            Some(Project::Wallet)
        } else {
            None
        }
    }
}

impl Project {
    /// Every variant, in declaration order.
    pub fn as_vec() -> (r: Vec<Project>)
        ensures
            r@ == seq![Project::MarketPlace, Project::Wallet],
    {
        let mut v: Vec<Project> = Vec::new();
        v.push(Project::MarketPlace);
        v.push(Project::Wallet);
        proof {
            assert(v@ =~= seq![Project::MarketPlace, Project::Wallet]);
        }
        v
    }
}

/// How a user authenticates.
#[derive(Clone, Copy, Debug, PartialEq, Eq, Hash, Structural)]
pub enum Provider {
    Email,
    Facebook,
    Google,
}

impl Provider {
    /// The wire name of the variant.
    pub open spec fn as_str_spec(self) -> Seq<char> {
        match self {
            Provider::Email => "email"@,
            Provider::Facebook => "facebook"@,
            Provider::Google => "google"@,
        }
    }

    /// Which variant a wire name denotes, if any.
    pub open spec fn from_str_spec(s: Seq<char>) -> Option<Provider> {
        if s == "email"@ {
            Some(Provider::Email)
        } else if s == "facebook"@ {
            Some(Provider::Facebook)
        } else if s == "google"@ {
            Some(Provider::Google)
        } else {
            None
        }
    }

    /// The wire name of the variant.
    pub fn as_str(&self) -> (r: &'static str)
        ensures
            r@ == self.as_str_spec(),
    {
        match self {
            Provider::Email => "email",
            Provider::Facebook => "facebook",
            Provider::Google => "google",
        }
    }

    /// Parse a wire name.
    pub fn from_str(s: &str) -> (r: Option<Provider>)
        ensures
            r == Provider::from_str_spec(s@),
    {
        if str_eq(s, "email") {
            Some(Provider::Email)
        } else if str_eq(s, "facebook") {
            Some(Provider::Facebook)
        } else if str_eq(s, "google") {
            Some(Provider::Google)
        } else {
            None
        }
    }
}

/// What a one-time token is for.
#[derive(Clone, Copy, Debug, PartialEq, Eq, Hash, Structural)]
pub enum TokenType {
    EmailVerify,
    PasswordReset,
    Undefined,
}

impl TokenType {
    /// The wire name of the variant.
    pub open spec fn as_str_spec(self) -> Seq<char> {
        match self {
            TokenType::EmailVerify => "email_verify"@,
            TokenType::PasswordReset => "password_reset"@,
            TokenType::Undefined => "undefined"@,
        }
    }

    /// Which variant a wire name denotes, if any.
    pub open spec fn from_str_spec(s: Seq<char>) -> Option<TokenType> {
        if s == "email_verify"@ {
            Some(TokenType::EmailVerify)
        } else if s == "password_reset"@ {
            Some(TokenType::PasswordReset)
        } else if s == "undefined"@ {
            Some(TokenType::Undefined)
        } else {
            None
        }
    }

    /// The wire name of the variant.
    pub fn as_str(&self) -> (r: &'static str)
        ensures
            r@ == self.as_str_spec(),
    {
        match self {
            TokenType::EmailVerify => "email_verify",
            TokenType::PasswordReset => "password_reset",
            TokenType::Undefined => "undefined",
        }
    }

    /// Parse a wire name.
    pub fn from_str(s: &str) -> (r: Option<TokenType>)
        ensures
            r == TokenType::from_str_spec(s@),
    {
        if str_eq(s, "email_verify") {
            Some(TokenType::EmailVerify)
        } else if str_eq(s, "password_reset") {
            Some(TokenType::PasswordReset)
        } else if str_eq(s, "undefined") {
            Some(TokenType::Undefined)
        } else {
            None
        }
    }
}

/// A language of the platform.
#[derive(Clone, Copy, Debug, PartialEq, Eq, Hash, Structural)]
pub enum Language {
    En,
    Ch,
    De,
    Ru,
    Es,
    Fr,
    Ko,
    Po,
    Ja,
}

impl Language {
    /// The wire name of the variant.
    pub open spec fn as_str_spec(self) -> Seq<char> {
        match self {
            Language::En => "en"@,
            Language::Ch => "ch"@,
            Language::De => "de"@,
            Language::Ru => "ru"@,
            Language::Es => "es"@,
            Language::Fr => "fr"@,
            Language::Ko => "ko"@,
            Language::Po => "po"@,
            Language::Ja => "ja"@,
        }
    }

    /// Which variant a wire name denotes, if any.
    pub open spec fn from_str_spec(s: Seq<char>) -> Option<Language> {
        if s == "en"@ {
            Some(Language::En)
        } else if s == "ch"@ {
            Some(Language::Ch)
        } else if s == "de"@ {
            Some(Language::De)
        } else if s == "ru"@ {
            Some(Language::Ru)
        } else if s == "es"@ {
            Some(Language::Es)
        } else if s == "fr"@ {
            Some(Language::Fr)
        } else if s == "ko"@ {
            Some(Language::Ko)
        } else if s == "po"@ {
            Some(Language::Po)
        } else if s == "ja"@ {
            Some(Language::Ja)
        } else {
            None
        }
    }

    /// The wire name of the variant.
    pub fn as_str(&self) -> (r: &'static str)
        ensures
            r@ == self.as_str_spec(),
    {
        match self {
            Language::En => "en",
            Language::Ch => "ch",
            Language::De => "de",
            Language::Ru => "ru",
            Language::Es => "es",
            Language::Fr => "fr",
            Language::Ko => "ko",
            Language::Po => "po",
            Language::Ja => "ja",
        }
    }

    /// Parse a wire name.
    pub fn from_str(s: &str) -> (r: Option<Language>)
        ensures
            r == Language::from_str_spec(s@),
    {
        if str_eq(s, "en") {
            Some(Language::En)
        } else if str_eq(s, "ch") {
            Some(Language::Ch)
        } else if str_eq(s, "de") {
            Some(Language::De)
        } else if str_eq(s, "ru") {
            Some(Language::Ru)
        } else if str_eq(s, "es") {
            Some(Language::Es)
        } else if str_eq(s, "fr") {
            Some(Language::Fr)
        } else if str_eq(s, "ko") {
            Some(Language::Ko)
        } else if str_eq(s, "po") {
            Some(Language::Po)
        } else if str_eq(s, "ja") {
            Some(Language::Ja)
        } else {
            None
        }
    }
}
/// A translation to be supplied by a caller.
#[derive(Clone, Debug, PartialEq, Eq)]
pub struct TranslationInput {
    pub lang: Language,
    pub text: String,
}

/// A text together with its language.
#[derive(Clone, Debug, PartialEq, Eq)]
pub struct Translation {
    pub lang: Language,
    pub text: String,
}

impl Translation {
    pub fn new(lang: Language, text: String) -> (r: Self)
        ensures
            r.lang == lang,
            r.text == text,
    {
        Translation { lang, text }
    }
}

/// A language as exposed to API clients: its ISO 639-1 code.
#[derive(Clone, Debug, PartialEq, Eq)]
pub struct LanguageGraphQl {
    pub iso_code: String,
}

impl LanguageGraphQl {
    pub fn new(iso_code: String) -> (r: Self)
        ensures
            r.iso_code == iso_code,
    {
        LanguageGraphQl { iso_code }
    }
}

impl Language {
    /// Every language, in declaration order, under its ISO code.
    pub fn as_vec() -> (r: Vec<LanguageGraphQl>)
        ensures
            r@.len() == 9,
            forall|i: int|
                0 <= i < 9 ==> (#[trigger] r@[i]).iso_code@ == Language::all_spec()[i].as_str_spec(),
    {
        let langs = Language::all();
        let mut out: Vec<LanguageGraphQl> = Vec::new();
        let mut i: usize = 0;
        while i < langs.len()
            invariant
                0 <= i <= langs@.len(),
                langs@ == Language::all_spec(),
                out@.len() == i as int,
                forall|j: int|
                    0 <= j < i ==> (#[trigger] out@[j]).iso_code@ == Language::all_spec()[
                        j
                    ].as_str_spec(),
            decreases langs@.len() - i,
        {
            out.push(LanguageGraphQl::new(String::from_str(langs[i].as_str())));
            i += 1;
        }
        out
    }

    /// Every language, in declaration order.
    pub open spec fn all_spec() -> Seq<Language> {
        seq![
            Language::En,
            Language::Ch,
            Language::De,
            Language::Ru,
            Language::Es,
            Language::Fr,
            Language::Ko,
            Language::Po,
            Language::Ja,
        ]
    }

    /// Every language, in declaration order.
    pub fn all() -> (r: Vec<Language>)
        ensures
            r@ == Language::all_spec(),
    {
        let mut v: Vec<Language> = Vec::new();
        v.push(Language::En);
        v.push(Language::Ch);
        v.push(Language::De);
        v.push(Language::Ru);
        v.push(Language::Es);
        v.push(Language::Fr);
        v.push(Language::Ko);
        v.push(Language::Po);
        v.push(Language::Ja);
        proof {
            assert(v@ =~= Language::all_spec());
        }
        v
    }
}

impl Default for Project {
    fn default() -> (r: Project)
        ensures
            r == Project::MarketPlace,
    {
        Project::MarketPlace
    }
}

} // verus!
