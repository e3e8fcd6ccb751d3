use stq_core::emails::{
    ApplyEmailVerificationForUser, Email, EmailUser, EmailVerificationForUser, OrderCreateForUser,
    OrderUpdateStateForUser, SimpleMail, StoreModerationStatusForUser, TemplateVariant,
};
use stq_core::resources::ModerationStatus;
use stq_core::types::{CartCustomer, OrderIdentifier, OrderSlug, SessionId, UserId};

fn user(email: &str) -> EmailUser {
    EmailUser {
        email: String::from(email),
        first_name: String::from("Jo"),
        last_name: String::from("Doe"),
    }
}

#[test]
fn order_update_mail_renders_exactly() {
    let mail = OrderUpdateStateForUser {
        user: user("a@b.c"),
        order_slug: String::from("1234"),
        order_state: String::from("Paid"),
        cluster_url: String::from("https://market.example"),
    }
    .into_send_mail();
    assert_eq!(
        mail,
        SimpleMail {
            to: String::from("a@b.c"),
            subject: String::from("The order 1234 status"),
            text: String::from(
                "Orders' 1234 state is 'Paid' now. You can view current info about your order on <a href=\"https://market.example/profile/orders/1234\">this page</a>."
            ),
        }
    );
}

#[test]
fn order_create_mail_renders_exactly() {
    let mail = OrderCreateForUser {
        user: user("a@b.c"),
        order_slug: String::from("7"),
        cluster_url: String::from("u"),
    }
    .into_send_mail();
    assert_eq!(mail.subject, "New order 7.");
    assert_eq!(
        mail.text,
        "Order 7 was created. You can view current info about your order on <a href=\"u/profile/orders/7\">this page</a>."
    );
}

#[test]
fn verification_mail_joins_path_and_token() {
    let mail = EmailVerificationForUser {
        user: user("v@b.c"),
        verify_email_path: String::from("https://x/verify"),
        token: String::from("tok"),
    }
    .into_send_mail();
    assert_eq!(mail.subject, "Verify your account on Storiqa");
    assert_eq!(mail.text, "https://x/verify/tok");
}

#[test]
fn moderation_mail_uses_the_status_wire_name() {
    let mail = StoreModerationStatusForUser {
        store_email: String::from("s@b.c"),
        cluster_url: String::from("u"),
        store_id: String::from("5"),
        status: ModerationStatus::Published,
    }
    .into_send_mail();
    assert_eq!(
        mail.subject,
        "The moderation status of the store has changed. New status published"
    );
    assert_eq!(
        mail.text,
        "Store 5 status has been changed. <br> New status published. <br> You can view current store info on <a href=\"u/store/5\">this page</a>."
    );
}

#[test]
fn fixed_notices_render_exactly() {
    let mail = ApplyEmailVerificationForUser { user: user("z@b.c") }.into_send_mail();
    assert_eq!(mail.to, "z@b.c");
    assert_eq!(mail.subject, "Successful registration");
    assert_eq!(mail.text, "Email for linked account has been verified.");
}

#[test]
fn template_variants_round_trip() {
    let all = [
        TemplateVariant::OrderCreateForUser,
        TemplateVariant::OrderUpdateStateForUser,
        TemplateVariant::WalletApplyEmailVerificationForUser,
    ];
    for v in all {
        assert_eq!(TemplateVariant::from_str(v.as_str()), Some(v));
    }
    assert_eq!(
        TemplateVariant::from_str("store_moderation_status_for_moderator"),
        Some(TemplateVariant::StoreModerationStatusForModerator)
    );
    assert_eq!(TemplateVariant::from_str("smoke_signal"), None);
}

#[test]
fn identifiers_compare_by_contents() {
    assert_eq!(
        OrderIdentifier::Slug(OrderSlug(5)),
        OrderIdentifier::Slug(OrderSlug(5))
    );
    assert_ne!(
        CartCustomer::User(UserId(1)),
        CartCustomer::Anonymous(SessionId(1))
    );
}
