//! The transactional mails of the platform: each template renders itself
//! into a plain mail — an address, a subject and a body — with the exact
//! text pinned down.

use crate::resources::ModerationStatus;
use vstd::prelude::*;

verus! {

/// A plain mail, ready to send.
#[derive(Clone, Debug, PartialEq, Eq)]
pub struct SimpleMail {
    pub to: String,
    pub subject: String,
    pub text: String,
}

/// The addressee of a mail.
#[derive(Clone, Debug, PartialEq, Eq)]
pub struct EmailUser {
    pub email: String,
    pub first_name: String,
    pub last_name: String,
}

/// A template that renders itself into a plain mail.
pub trait Email: Sized {
    /// The address the mail goes to.
    spec fn mail_to(self) -> Seq<char>;

    /// The rendered subject line.
    spec fn mail_subject(self) -> Seq<char>;

    /// The rendered body.
    spec fn mail_text(self) -> Seq<char>;

    fn into_send_mail(self) -> (m: SimpleMail)
        ensures
            m.to@ == self.mail_to(),
            m.subject@ == self.mail_subject(),
            m.text@ == self.mail_text(),
    ;
}

/// An order state change, told to the customer.
#[derive(Clone, Debug, PartialEq, Eq)]
pub struct OrderUpdateStateForUser {
    pub user: EmailUser,
    pub order_slug: String,
    pub order_state: String,
    pub cluster_url: String,
}

impl Email for OrderUpdateStateForUser {
    open spec fn mail_to(self) -> Seq<char> {
        self.user.email@
    }

    open spec fn mail_subject(self) -> Seq<char> {
        "The order "@ + self.order_slug@ + " status"@
    }

    open spec fn mail_text(self) -> Seq<char> {
        "Orders' "@ + self.order_slug@ + " state is '"@ + self.order_state@ + "' now. You can view current info about your order on <a href=\""@ + self.cluster_url@ + "/profile/orders/"@ + self.order_slug@ + "\">this page</a>."@
    }

    fn into_send_mail(self) -> (m: SimpleMail) {
        proof {
            reveal_strlit(" state is '");
            reveal_strlit(" status");
            reveal_strlit("' now. You can view current info about your order on <a href=\"");
            reveal_strlit("/profile/orders/");
            reveal_strlit("Orders' ");
            reveal_strlit("The order ");
            reveal_strlit("\">this page</a>.");
        }
        let mut subject = String::new();
        subject.append("The order ");
        subject.append(self.order_slug.as_str());
        subject.append(" status");
        let mut text = String::new();
        text.append("Orders' ");
        text.append(self.order_slug.as_str());
        text.append(" state is '");
        text.append(self.order_state.as_str());
        text.append("' now. You can view current info about your order on <a href=\"");
        text.append(self.cluster_url.as_str());
        text.append("/profile/orders/");
        text.append(self.order_slug.as_str());
        text.append("\">this page</a>.");
        proof {
            assert(subject@ =~= "The order "@ + self.order_slug@ + " status"@);
            assert(text@ =~= "Orders' "@ + self.order_slug@ + " state is '"@ + self.order_state@ + "' now. You can view current info about your order on <a href=\""@ + self.cluster_url@ + "/profile/orders/"@ + self.order_slug@ + "\">this page</a>."@);
        }
        SimpleMail { to: self.user.email, subject, text }
    }
}

/// An order state change, told to the store.
#[derive(Clone, Debug, PartialEq, Eq)]
pub struct OrderUpdateStateForStore {
    pub store_email: String,
    pub order_slug: String,
    pub order_state: String,
    pub cluster_url: String,
    pub store_id: String,
}

impl Email for OrderUpdateStateForStore {
    open spec fn mail_to(self) -> Seq<char> {
        self.store_email@
    }

    open spec fn mail_subject(self) -> Seq<char> {
        "The order "@ + self.order_slug@ + " status"@
    }

    open spec fn mail_text(self) -> Seq<char> {
        "Orders' "@ + self.order_slug@ + " state is '"@ + self.order_state@ + "' now. You can view current order info on <a href=\""@ + self.cluster_url@ + "/manage/store/"@ + self.store_id@ + "/orders/"@ + self.order_slug@ + "\">this page</a>."@
    }

    fn into_send_mail(self) -> (m: SimpleMail) {
        proof {
            reveal_strlit(" state is '");
            reveal_strlit(" status");
            reveal_strlit("' now. You can view current order info on <a href=\"");
            reveal_strlit("/manage/store/");
            reveal_strlit("/orders/");
            reveal_strlit("Orders' ");
            reveal_strlit("The order ");
            reveal_strlit("\">this page</a>.");
        }
        let mut subject = String::new();
        subject.append("The order ");
        subject.append(self.order_slug.as_str());
        subject.append(" status");
        let mut text = String::new();
        text.append("Orders' ");
        text.append(self.order_slug.as_str());
        text.append(" state is '");
        text.append(self.order_state.as_str());
        text.append("' now. You can view current order info on <a href=\"");
        text.append(self.cluster_url.as_str());
        text.append("/manage/store/");
        text.append(self.store_id.as_str());
        text.append("/orders/");
        text.append(self.order_slug.as_str());
        text.append("\">this page</a>.");
        proof {
            assert(subject@ =~= "The order "@ + self.order_slug@ + " status"@);
            assert(text@ =~= "Orders' "@ + self.order_slug@ + " state is '"@ + self.order_state@ + "' now. You can view current order info on <a href=\""@ + self.cluster_url@ + "/manage/store/"@ + self.store_id@ + "/orders/"@ + self.order_slug@ + "\">this page</a>."@);
        }
        SimpleMail { to: self.store_email, subject, text }
    }
}

/// A new order, told to the customer.
#[derive(Clone, Debug, PartialEq, Eq)]
pub struct OrderCreateForUser {
    pub user: EmailUser,
    pub order_slug: String,
    pub cluster_url: String,
}

impl Email for OrderCreateForUser {
    open spec fn mail_to(self) -> Seq<char> {
        self.user.email@
    }

    open spec fn mail_subject(self) -> Seq<char> {
        "New order "@ + self.order_slug@ + "."@
    }

    open spec fn mail_text(self) -> Seq<char> {
        "Order "@ + self.order_slug@ + " was created. You can view current info about your order on <a href=\""@ + self.cluster_url@ + "/profile/orders/"@ + self.order_slug@ + "\">this page</a>."@
    }

    fn into_send_mail(self) -> (m: SimpleMail) {
        proof {
            reveal_strlit(" was created. You can view current info about your order on <a href=\"");
            reveal_strlit(".");
            reveal_strlit("/profile/orders/");
            reveal_strlit("New order ");
            reveal_strlit("Order ");
            reveal_strlit("\">this page</a>.");
        }
        let mut subject = String::new();
        subject.append("New order ");
        subject.append(self.order_slug.as_str());
        subject.append(".");
        let mut text = String::new();
        text.append("Order ");
        text.append(self.order_slug.as_str());
        text.append(" was created. You can view current info about your order on <a href=\"");
        text.append(self.cluster_url.as_str());
        text.append("/profile/orders/");
        text.append(self.order_slug.as_str());
        text.append("\">this page</a>.");
        proof {
            assert(subject@ =~= "New order "@ + self.order_slug@ + "."@);
            assert(text@ =~= "Order "@ + self.order_slug@ + " was created. You can view current info about your order on <a href=\""@ + self.cluster_url@ + "/profile/orders/"@ + self.order_slug@ + "\">this page</a>."@);
        }
        SimpleMail { to: self.user.email, subject, text }
    }
}

/// A new order, told to the store.
#[derive(Clone, Debug, PartialEq, Eq)]
pub struct OrderCreateForStore {
    pub store_email: String,
    pub order_slug: String,
    pub cluster_url: String,
    pub store_id: String,
}

impl Email for OrderCreateForStore {
    open spec fn mail_to(self) -> Seq<char> {
        self.store_email@
    }

    open spec fn mail_subject(self) -> Seq<char> {
        "New order "@ + self.order_slug@ + "."@
    }

    open spec fn mail_text(self) -> Seq<char> {
        "Order "@ + self.order_slug@ + " was created. You can view current order info on <a href=\""@ + self.cluster_url@ + "/manage/store/"@ + self.store_id@ + "/orders/"@ + self.order_slug@ + "\">this page</a>."@
    }

    fn into_send_mail(self) -> (m: SimpleMail) {
        proof {
            reveal_strlit(" was created. You can view current order info on <a href=\"");
            reveal_strlit(".");
            reveal_strlit("/manage/store/");
            reveal_strlit("/orders/");
            reveal_strlit("New order ");
            reveal_strlit("Order ");
            reveal_strlit("\">this page</a>.");
        }
        let mut subject = String::new();
        subject.append("New order ");
        subject.append(self.order_slug.as_str());
        subject.append(".");
        let mut text = String::new();
        text.append("Order ");
        text.append(self.order_slug.as_str());
        text.append(" was created. You can view current order info on <a href=\"");
        text.append(self.cluster_url.as_str());
        text.append("/manage/store/");
        text.append(self.store_id.as_str());
        text.append("/orders/");
        text.append(self.order_slug.as_str());
        text.append("\">this page</a>.");
        proof {
            assert(subject@ =~= "New order "@ + self.order_slug@ + "."@);
            assert(text@ =~= "Order "@ + self.order_slug@ + " was created. You can view current order info on <a href=\""@ + self.cluster_url@ + "/manage/store/"@ + self.store_id@ + "/orders/"@ + self.order_slug@ + "\">this page</a>."@);
        }
        SimpleMail { to: self.store_email, subject, text }
    }
}

/// The address-verification mail.
#[derive(Clone, Debug, PartialEq, Eq)]
pub struct EmailVerificationForUser {
    pub user: EmailUser,
    pub verify_email_path: String,
    pub token: String,
}

impl Email for EmailVerificationForUser {
    open spec fn mail_to(self) -> Seq<char> {
        self.user.email@
    }

    open spec fn mail_subject(self) -> Seq<char> {
        "Verify your account on Storiqa"@
    }

    open spec fn mail_text(self) -> Seq<char> {
        self.verify_email_path@ + "/"@ + self.token@
    }

    fn into_send_mail(self) -> (m: SimpleMail) {
        proof {
            reveal_strlit("/");
            reveal_strlit("Verify your account on Storiqa");
        }
        let mut subject = String::new();
        subject.append("Verify your account on Storiqa");
        let mut text = String::new();
        text.append(self.verify_email_path.as_str());
        text.append("/");
        text.append(self.token.as_str());
        proof {
            assert(subject@ =~= "Verify your account on Storiqa"@);
            assert(text@ =~= self.verify_email_path@ + "/"@ + self.token@);
        }
        SimpleMail { to: self.user.email, subject, text }
    }
}

/// The password-reset mail.
#[derive(Clone, Debug, PartialEq, Eq)]
pub struct PasswordResetForUser {
    pub user: EmailUser,
    pub reset_password_path: String,
    pub token: String,
}

impl Email for PasswordResetForUser {
    open spec fn mail_to(self) -> Seq<char> {
        self.user.email@
    }

    open spec fn mail_subject(self) -> Seq<char> {
        "Password reset"@
    }

    open spec fn mail_text(self) -> Seq<char> {
        self.reset_password_path@ + "/"@ + self.token@
    }

    fn into_send_mail(self) -> (m: SimpleMail) {
        proof {
            reveal_strlit("/");
            reveal_strlit("Password reset");
        }
        let mut subject = String::new();
        subject.append("Password reset");
        let mut text = String::new();
        text.append(self.reset_password_path.as_str());
        text.append("/");
        text.append(self.token.as_str());
        proof {
            assert(subject@ =~= "Password reset"@);
            assert(text@ =~= self.reset_password_path@ + "/"@ + self.token@);
        }
        SimpleMail { to: self.user.email, subject, text }
    }
}

/// The password-was-reset notice.
#[derive(Clone, Debug, PartialEq, Eq)]
pub struct ApplyPasswordResetForUser {
    pub user: EmailUser,
    pub cluster_url: String,
}

impl Email for ApplyPasswordResetForUser {
    open spec fn mail_to(self) -> Seq<char> {
        self.user.email@
    }

    open spec fn mail_subject(self) -> Seq<char> {
        "Successful password reset"@
    }

    open spec fn mail_text(self) -> Seq<char> {
        "Password for linked account has been successfully reset."@
    }

    fn into_send_mail(self) -> (m: SimpleMail) {
        proof {
            reveal_strlit("Password for linked account has been successfully reset.");
            reveal_strlit("Successful password reset");
        }
        let mut subject = String::new();
        subject.append("Successful password reset");
        let mut text = String::new();
        text.append("Password for linked account has been successfully reset.");
        proof {
            assert(subject@ =~= "Successful password reset"@);
            assert(text@ =~= "Password for linked account has been successfully reset."@);
        }
        SimpleMail { to: self.user.email, subject, text }
    }
}

/// A store moderation change, told to its manager.
#[derive(Clone, Debug, PartialEq, Eq)]
pub struct StoreModerationStatusForUser {
    pub store_email: String,
    pub cluster_url: String,
    pub store_id: String,
    pub status: ModerationStatus,
}

impl Email for StoreModerationStatusForUser {
    open spec fn mail_to(self) -> Seq<char> {
        self.store_email@
    }

    open spec fn mail_subject(self) -> Seq<char> {
        "The moderation status of the store has changed. New status "@ + self.status.as_str_spec()
    }

    open spec fn mail_text(self) -> Seq<char> {
        "Store "@ + self.store_id@ + " status has been changed. <br> New status "@ + self.status.as_str_spec() + ". <br> You can view current store info on <a href=\""@ + self.cluster_url@ + "/store/"@ + self.store_id@ + "\">this page</a>."@
    }

    fn into_send_mail(self) -> (m: SimpleMail) {
        proof {
            reveal_strlit(" status has been changed. <br> New status ");
            reveal_strlit(". <br> You can view current store info on <a href=\"");
            reveal_strlit("/store/");
            reveal_strlit("Store ");
            reveal_strlit("The moderation status of the store has changed. New status ");
            reveal_strlit("\">this page</a>.");
        }
        let mut subject = String::new();
        subject.append("The moderation status of the store has changed. New status ");
        subject.append(self.status.as_str());
        let mut text = String::new();
        text.append("Store ");
        text.append(self.store_id.as_str());
        text.append(" status has been changed. <br> New status ");
        text.append(self.status.as_str());
        text.append(". <br> You can view current store info on <a href=\"");
        text.append(self.cluster_url.as_str());
        text.append("/store/");
        text.append(self.store_id.as_str());
        text.append("\">this page</a>.");
        proof {
            assert(subject@ =~= "The moderation status of the store has changed. New status "@ + self.status.as_str_spec());
            assert(text@ =~= "Store "@ + self.store_id@ + " status has been changed. <br> New status "@ + self.status.as_str_spec() + ". <br> You can view current store info on <a href=\""@ + self.cluster_url@ + "/store/"@ + self.store_id@ + "\">this page</a>."@);
        }
        SimpleMail { to: self.store_email, subject, text }
    }
}

/// A product moderation change, told to its manager.
#[derive(Clone, Debug, PartialEq, Eq)]
pub struct BaseProductModerationStatusForUser {
    pub store_email: String,
    pub cluster_url: String,
    pub base_product_id: String,
    pub store_id: String,
    pub status: ModerationStatus,
}

impl Email for BaseProductModerationStatusForUser {
    open spec fn mail_to(self) -> Seq<char> {
        self.store_email@
    }

    open spec fn mail_subject(self) -> Seq<char> {
        "The moderation status of the product has changed. New status "@ + self.status.as_str_spec() + "."@
    }

    open spec fn mail_text(self) -> Seq<char> {
        "Product "@ + self.base_product_id@ + " status has been changed. <br> New status "@ + self.status.as_str_spec() + ". <br> You can view current product info on <a href=\""@ + self.cluster_url@ + "/store/"@ + self.store_id@ + "/products/"@ + self.base_product_id@ + "\">this page</a>."@
    }

    fn into_send_mail(self) -> (m: SimpleMail) {
        proof {
            reveal_strlit(" status has been changed. <br> New status ");
            reveal_strlit(".");
            reveal_strlit(". <br> You can view current product info on <a href=\"");
            reveal_strlit("/products/");
            reveal_strlit("/store/");
            reveal_strlit("Product ");
            reveal_strlit("The moderation status of the product has changed. New status ");
            reveal_strlit("\">this page</a>.");
        }
        let mut subject = String::new();
        subject.append("The moderation status of the product has changed. New status ");
        subject.append(self.status.as_str());
        subject.append(".");
        let mut text = String::new();
        text.append("Product ");
        text.append(self.base_product_id.as_str());
        text.append(" status has been changed. <br> New status ");
        text.append(self.status.as_str());
        text.append(". <br> You can view current product info on <a href=\"");
        text.append(self.cluster_url.as_str());
        text.append("/store/");
        text.append(self.store_id.as_str());
        text.append("/products/");
        text.append(self.base_product_id.as_str());
        text.append("\">this page</a>.");
        proof {
            assert(subject@ =~= "The moderation status of the product has changed. New status "@ + self.status.as_str_spec() + "."@);
            assert(text@ =~= "Product "@ + self.base_product_id@ + " status has been changed. <br> New status "@ + self.status.as_str_spec() + ". <br> You can view current product info on <a href=\""@ + self.cluster_url@ + "/store/"@ + self.store_id@ + "/products/"@ + self.base_product_id@ + "\">this page</a>."@);
        }
        SimpleMail { to: self.store_email, subject, text }
    }
}

/// A store moderation change, told to a moderator.
#[derive(Clone, Debug, PartialEq, Eq)]
pub struct StoreModerationStatusForModerator {
    pub user: EmailUser,
    pub cluster_url: String,
    pub store_id: String,
    pub status: ModerationStatus,
}

impl Email for StoreModerationStatusForModerator {
    open spec fn mail_to(self) -> Seq<char> {
        self.user.email@
    }

    open spec fn mail_subject(self) -> Seq<char> {
        "The moderation status of the store has changed. New status "@ + self.status.as_str_spec() + "."@
    }

    open spec fn mail_text(self) -> Seq<char> {
        "Store "@ + self.store_id@ + " status has been changed. <br> New status "@ + self.status.as_str_spec() + ". <br> You can view current store info on <a href=\""@ + self.cluster_url@ + "/store/"@ + self.store_id@ + "\">this page</a>."@
    }

    fn into_send_mail(self) -> (m: SimpleMail) {
        proof {
            reveal_strlit(" status has been changed. <br> New status ");
            reveal_strlit(".");
            reveal_strlit(". <br> You can view current store info on <a href=\"");
            reveal_strlit("/store/");
            reveal_strlit("Store ");
            reveal_strlit("The moderation status of the store has changed. New status ");
            reveal_strlit("\">this page</a>.");
        }
        let mut subject = String::new();
        subject.append("The moderation status of the store has changed. New status ");
        subject.append(self.status.as_str());
        subject.append(".");
        let mut text = String::new();
        text.append("Store ");
        text.append(self.store_id.as_str());
        text.append(" status has been changed. <br> New status ");
        text.append(self.status.as_str());
        text.append(". <br> You can view current store info on <a href=\"");
        text.append(self.cluster_url.as_str());
        text.append("/store/");
        text.append(self.store_id.as_str());
        text.append("\">this page</a>.");
        proof {
            assert(subject@ =~= "The moderation status of the store has changed. New status "@ + self.status.as_str_spec() + "."@);
            assert(text@ =~= "Store "@ + self.store_id@ + " status has been changed. <br> New status "@ + self.status.as_str_spec() + ". <br> You can view current store info on <a href=\""@ + self.cluster_url@ + "/store/"@ + self.store_id@ + "\">this page</a>."@);
        }
        SimpleMail { to: self.user.email, subject, text }
    }
}

/// A product moderation change, told to a moderator.
#[derive(Clone, Debug, PartialEq, Eq)]
pub struct BaseProductModerationStatusForModerator {
    pub user: EmailUser,
    pub cluster_url: String,
    pub store_id: String,
    pub base_product_id: String,
    pub status: ModerationStatus,
}

impl Email for BaseProductModerationStatusForModerator {
    open spec fn mail_to(self) -> Seq<char> {
        self.user.email@
    }

    open spec fn mail_subject(self) -> Seq<char> {
        "The moderation status of the product has changed. New status "@ + self.status.as_str_spec() + "."@
    }

    open spec fn mail_text(self) -> Seq<char> {
        "Product "@ + self.base_product_id@ + " status has been changed. <br> New status "@ + self.status.as_str_spec() + ". <br> You can view current product info on <a href=\""@ + self.cluster_url@ + "/store/"@ + self.store_id@ + "/products/"@ + self.base_product_id@ + "\">this page</a>."@
    }

    fn into_send_mail(self) -> (m: SimpleMail) {
        proof {
            reveal_strlit(" status has been changed. <br> New status ");
            reveal_strlit(".");
            reveal_strlit(". <br> You can view current product info on <a href=\"");
            reveal_strlit("/products/");
            reveal_strlit("/store/");
            reveal_strlit("Product ");
            reveal_strlit("The moderation status of the product has changed. New status ");
            reveal_strlit("\">this page</a>.");
        }
        let mut subject = String::new();
        subject.append("The moderation status of the product has changed. New status ");
        subject.append(self.status.as_str());
        subject.append(".");
        let mut text = String::new();
        text.append("Product ");
        text.append(self.base_product_id.as_str());
        text.append(" status has been changed. <br> New status ");
        text.append(self.status.as_str());
        text.append(". <br> You can view current product info on <a href=\"");
        text.append(self.cluster_url.as_str());
        text.append("/store/");
        text.append(self.store_id.as_str());
        text.append("/products/");
        text.append(self.base_product_id.as_str());
        text.append("\">this page</a>.");
        proof {
            assert(subject@ =~= "The moderation status of the product has changed. New status "@ + self.status.as_str_spec() + "."@);
            assert(text@ =~= "Product "@ + self.base_product_id@ + " status has been changed. <br> New status "@ + self.status.as_str_spec() + ". <br> You can view current product info on <a href=\""@ + self.cluster_url@ + "/store/"@ + self.store_id@ + "/products/"@ + self.base_product_id@ + "\">this page</a>."@);
        }
        SimpleMail { to: self.user.email, subject, text }
    }
}

/// The address-was-verified notice.
#[derive(Clone, Debug, PartialEq, Eq)]
pub struct ApplyEmailVerificationForUser {
    pub user: EmailUser,
}

impl Email for ApplyEmailVerificationForUser {
    open spec fn mail_to(self) -> Seq<char> {
        self.user.email@
    }

    open spec fn mail_subject(self) -> Seq<char> {
        "Successful registration"@
    }

    open spec fn mail_text(self) -> Seq<char> {
        "Email for linked account has been verified."@
    }

    fn into_send_mail(self) -> (m: SimpleMail) {
        proof {
            reveal_strlit("Email for linked account has been verified.");
            reveal_strlit("Successful registration");
        }
        let mut subject = String::new();
        subject.append("Successful registration");
        let mut text = String::new();
        text.append("Email for linked account has been verified.");
        proof {
            assert(subject@ =~= "Successful registration"@);
            assert(text@ =~= "Email for linked account has been verified."@);
        }
        SimpleMail { to: self.user.email, subject, text }
    }
}

/// Which mail template is meant.
#[derive(Clone, Copy, Debug, PartialEq, Eq, Hash, Structural)]
pub enum TemplateVariant {
    OrderCreateForUser,
    OrderUpdateStateForUser,
    OrderCreateForStore,
    OrderUpdateStateForStore,
    EmailVerificationForUser,
    PasswordResetForUser,
    ApplyPasswordResetForUser,
    ApplyEmailVerificationForUser,
    StoreModerationStatusForUser,
    BaseProductModerationStatusForUser,
    StoreModerationStatusForModerator,
    BaseProductModerationStatusForModerator,
    WalletEmailVerificationForUser,
    WalletPasswordResetForUser,
    WalletApplyPasswordResetForUser,
    WalletApplyEmailVerificationForUser,
}

impl TemplateVariant {
    /// The wire name of the variant.
    pub open spec fn as_str_spec(self) -> Seq<char> {
        match self {
            TemplateVariant::OrderCreateForUser => "order_create_for_user"@,
            TemplateVariant::OrderUpdateStateForUser => "order_update_state_for_user"@,
            TemplateVariant::OrderCreateForStore => "order_create_for_store"@,
            TemplateVariant::OrderUpdateStateForStore => "order_update_state_for_store"@,
            TemplateVariant::EmailVerificationForUser => "email_verification_for_user"@,
            TemplateVariant::PasswordResetForUser => "password_reset_for_user"@,
            TemplateVariant::ApplyPasswordResetForUser => "apply_password_reset_for_user"@,
            TemplateVariant::ApplyEmailVerificationForUser => "apply_email_verification_for_user"@,
            TemplateVariant::StoreModerationStatusForUser => "store_moderation_status_for_user"@,
            TemplateVariant::BaseProductModerationStatusForUser => "base_product_moderation_status_for_user"@,
            TemplateVariant::StoreModerationStatusForModerator => "store_moderation_status_for_moderator"@,
            TemplateVariant::BaseProductModerationStatusForModerator => "base_product_moderation_status_for_moderator"@,
            TemplateVariant::WalletEmailVerificationForUser => "wallet_email_verification_for_user"@,
            TemplateVariant::WalletPasswordResetForUser => "wallet_password_reset_for_user"@,
            TemplateVariant::WalletApplyPasswordResetForUser => "wallet_apply_password_reset_for_user"@,
            TemplateVariant::WalletApplyEmailVerificationForUser => "wallet_apply_email_verification_for_user"@,
        }
    }

    /// Which variant a wire name denotes, if any.
    pub open spec fn from_str_spec(s: Seq<char>) -> Option<TemplateVariant> {
        if s == "order_create_for_user"@ {
            Some(TemplateVariant::OrderCreateForUser)
        } else if s == "order_update_state_for_user"@ {
            Some(TemplateVariant::OrderUpdateStateForUser)
        } else if s == "order_create_for_store"@ {
            Some(TemplateVariant::OrderCreateForStore)
        } else if s == "order_update_state_for_store"@ {
            Some(TemplateVariant::OrderUpdateStateForStore)
        } else if s == "email_verification_for_user"@ {
            Some(TemplateVariant::EmailVerificationForUser)
        } else if s == "password_reset_for_user"@ {
            Some(TemplateVariant::PasswordResetForUser)
        } else if s == "apply_password_reset_for_user"@ {
            Some(TemplateVariant::ApplyPasswordResetForUser)
        } else if s == "apply_email_verification_for_user"@ {
            Some(TemplateVariant::ApplyEmailVerificationForUser)
        } else if s == "store_moderation_status_for_user"@ {
            Some(TemplateVariant::StoreModerationStatusForUser)
        } else if s == "base_product_moderation_status_for_user"@ {
            Some(TemplateVariant::BaseProductModerationStatusForUser)
        } else if s == "store_moderation_status_for_moderator"@ {
            Some(TemplateVariant::StoreModerationStatusForModerator)
        } else if s == "base_product_moderation_status_for_moderator"@ {
            Some(TemplateVariant::BaseProductModerationStatusForModerator)
        } else if s == "wallet_email_verification_for_user"@ {
            Some(TemplateVariant::WalletEmailVerificationForUser)
        } else if s == "wallet_password_reset_for_user"@ {
            Some(TemplateVariant::WalletPasswordResetForUser)
        } else if s == "wallet_apply_password_reset_for_user"@ {
            Some(TemplateVariant::WalletApplyPasswordResetForUser)
        } else if s == "wallet_apply_email_verification_for_user"@ {
            Some(TemplateVariant::WalletApplyEmailVerificationForUser)
        } else {
            None
        }
    }

    /// The wire name of the variant.
    pub fn as_str(&self) -> (r: &'static str)
        ensures
            r@ == self.as_str_spec(),
    {
        match self {
            TemplateVariant::OrderCreateForUser => "order_create_for_user",
            TemplateVariant::OrderUpdateStateForUser => "order_update_state_for_user",
            TemplateVariant::OrderCreateForStore => "order_create_for_store",
            TemplateVariant::OrderUpdateStateForStore => "order_update_state_for_store",
            TemplateVariant::EmailVerificationForUser => "email_verification_for_user",
            TemplateVariant::PasswordResetForUser => "password_reset_for_user",
            TemplateVariant::ApplyPasswordResetForUser => "apply_password_reset_for_user",
            TemplateVariant::ApplyEmailVerificationForUser => "apply_email_verification_for_user",
            TemplateVariant::StoreModerationStatusForUser => "store_moderation_status_for_user",
            TemplateVariant::BaseProductModerationStatusForUser => "base_product_moderation_status_for_user",
            TemplateVariant::StoreModerationStatusForModerator => "store_moderation_status_for_moderator",
            TemplateVariant::BaseProductModerationStatusForModerator => "base_product_moderation_status_for_moderator",
            TemplateVariant::WalletEmailVerificationForUser => "wallet_email_verification_for_user",
            TemplateVariant::WalletPasswordResetForUser => "wallet_password_reset_for_user",
            TemplateVariant::WalletApplyPasswordResetForUser => "wallet_apply_password_reset_for_user",
            TemplateVariant::WalletApplyEmailVerificationForUser => "wallet_apply_email_verification_for_user",
        }
    }

    /// Parse a wire name.
    pub fn from_str(s: &str) -> (r: Option<TemplateVariant>)
        ensures
            r == TemplateVariant::from_str_spec(s@),
    {
        if crate::strutil::str_eq(s, "order_create_for_user") {
            Some(TemplateVariant::OrderCreateForUser)
        } else if crate::strutil::str_eq(s, "order_update_state_for_user") {
            Some(TemplateVariant::OrderUpdateStateForUser)
        } else if crate::strutil::str_eq(s, "order_create_for_store") {
            Some(TemplateVariant::OrderCreateForStore)
        } else if crate::strutil::str_eq(s, "order_update_state_for_store") {
            Some(TemplateVariant::OrderUpdateStateForStore)
        } else if crate::strutil::str_eq(s, "email_verification_for_user") {
            Some(TemplateVariant::EmailVerificationForUser)
        } else if crate::strutil::str_eq(s, "password_reset_for_user") {
            Some(TemplateVariant::PasswordResetForUser)
        } else if crate::strutil::str_eq(s, "apply_password_reset_for_user") {
            Some(TemplateVariant::ApplyPasswordResetForUser)
        } else if crate::strutil::str_eq(s, "apply_email_verification_for_user") {
            Some(TemplateVariant::ApplyEmailVerificationForUser)
        } else if crate::strutil::str_eq(s, "store_moderation_status_for_user") {
            Some(TemplateVariant::StoreModerationStatusForUser)
        } else if crate::strutil::str_eq(s, "base_product_moderation_status_for_user") {
            Some(TemplateVariant::BaseProductModerationStatusForUser)
        } else if crate::strutil::str_eq(s, "store_moderation_status_for_moderator") {
            Some(TemplateVariant::StoreModerationStatusForModerator)
        } else if crate::strutil::str_eq(s, "base_product_moderation_status_for_moderator") {
            Some(TemplateVariant::BaseProductModerationStatusForModerator)
        } else if crate::strutil::str_eq(s, "wallet_email_verification_for_user") {
            Some(TemplateVariant::WalletEmailVerificationForUser)
        } else if crate::strutil::str_eq(s, "wallet_password_reset_for_user") {
            Some(TemplateVariant::WalletPasswordResetForUser)
        } else if crate::strutil::str_eq(s, "wallet_apply_password_reset_for_user") {
            Some(TemplateVariant::WalletApplyPasswordResetForUser)
        } else if crate::strutil::str_eq(s, "wallet_apply_email_verification_for_user") {
            Some(TemplateVariant::WalletApplyEmailVerificationForUser)
        } else {
            None
        }
    }
}

} // verus!
