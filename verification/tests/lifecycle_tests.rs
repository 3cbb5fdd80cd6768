use ttsbot::api::{auth_start, auth_step, bearer_credential, frontend_url, AuthAction, AuthEvent, AuthStage};
use ttsbot::app_error::AppError;
use ttsbot::guilds::{checked_create_start, checked_create_step, guild_create, CheckedCreateAction, CheckedCreateEvent, CheckedCreateStage, DbError, GuildLookup};
use ttsbot::renewer::{renew_start, renew_step, Handler, RenewAction, RenewEvent, RenewStage};

#[test]
fn renewal_retries_five_times_then_pauses() {
    let (mut s, a) = renew_start();
    assert_eq!(a, vec![RenewAction::CheckSlot]);
    let (s2, a2) = renew_step(s, RenewEvent::SlotPresent(false));
    assert_eq!((s2, a2), (RenewStage::CheckSlot, vec![RenewAction::CheckSlot]));
    let (n, a) = renew_step(s, RenewEvent::SlotPresent(true));
    assert_eq!(a, vec![RenewAction::Renew]);
    s = n;
    let mut renews = 1;
    loop {
        let (n, a) = renew_step(s, RenewEvent::Renewed(false));
        s = n;
        if a.contains(&RenewAction::Renew) {
            renews += 1;
            assert_eq!(a, vec![RenewAction::Sleep { seconds: 3 }, RenewAction::Renew]);
        } else {
            assert_eq!(a, vec![RenewAction::Sleep { seconds: 3 }, RenewAction::Sleep { seconds: 1000 }, RenewAction::CheckSlot]);
            break;
        }
    }
    assert_eq!(renews, 5);
    assert_eq!(s, RenewStage::CheckSlot);
    let (n, a) = renew_step(RenewStage::Renewing { failures: 2 }, RenewEvent::Renewed(true));
    assert_eq!((n, a), (RenewStage::CheckSlot, vec![RenewAction::Sleep { seconds: 1000 }, RenewAction::CheckSlot]));
}

#[test]
fn renewal_loop_starts_once() {
    let mut h = Handler::new();
    assert_eq!(h.user_id(), None);
    h.ready(99);
    assert_eq!(h.user_id(), Some(99));
    assert!(h.cache_ready());
    assert!(!h.cache_ready());
    assert!(!h.cache_ready());
}

#[test]
fn guilds_are_created_with_defaults() {
    let g = guild_create(GuildLookup::Missing, 330, "Test", Some("https://cdn/icon.webp".into())).unwrap();
    assert_eq!(g.id, 330);
    assert_eq!(g.name, "Test");
    assert_eq!(g.icon_url, "https://cdn/icon.png");
    assert_eq!(g.locale, "ja-JP");
    assert_eq!(g.voice_model, "JP-Female-Normal-A");
    assert_eq!(guild_create(GuildLookup::Missing, u64::MAX, "T", None).unwrap().icon_url, "");
    assert_eq!(guild_create(GuildLookup::Missing, u64::MAX, "T", None).unwrap().id, -1);
    assert!(guild_create(GuildLookup::Found, 1, "T", None).is_none());
    assert!(guild_create(GuildLookup::Failed, 1, "T", None).is_none());
}

#[test]
fn get_or_create() {
    let (s, a) = checked_create_start::<u32>();
    assert!(matches!(a, CheckedCreateAction::Get));
    let (s1, a1) = checked_create_step(s, CheckedCreateEvent::Got(Ok(5u32)));
    assert_eq!(s1, CheckedCreateStage::Done);
    assert!(matches!(a1, CheckedCreateAction::Finish(Ok(5))));
    let (s1, a1) = checked_create_step(s, CheckedCreateEvent::<u32>::Got(Err(DbError::Other)));
    assert_eq!(s1, CheckedCreateStage::Done);
    assert!(matches!(a1, CheckedCreateAction::Finish(Err(DbError::Other))));
    let (s1, a1) = checked_create_step(s, CheckedCreateEvent::<u32>::Got(Err(DbError::RowNotFound)));
    assert!(matches!(a1, CheckedCreateAction::Create));
    let (s2, a2) = checked_create_step(s1, CheckedCreateEvent::<u32>::Created(Ok(())));
    assert!(matches!(a2, CheckedCreateAction::Get));
    let (_, a3) = checked_create_step(s2, CheckedCreateEvent::Got(Ok(7u32)));
    assert!(matches!(a3, CheckedCreateAction::Finish(Ok(7))));
    let (_, a2) = checked_create_step(s1, CheckedCreateEvent::<u32>::Created(Err(DbError::Other)));
    assert!(matches!(a2, CheckedCreateAction::Finish(Err(DbError::Other))));
}

#[test]
fn oauth_redirect() {
    assert_eq!(bearer_credential("abc"), "Bearer abc");
    assert_eq!(frontend_url(None), "http://localhost:3000");
    assert_eq!(frontend_url(Some("https://x".into())), "https://x");
    let (s, a) = auth_start();
    assert!(matches!(a, AuthAction::ReadVerifier));
    assert!(matches!(auth_step(s, AuthEvent::Verifier(Some(false))).1, AuthAction::Fail(AppError::InternalServerError)));
    assert!(matches!(auth_step(s, AuthEvent::Verifier(None)).1, AuthAction::Fail(AppError::InternalServerError)));
    let (s, a) = auth_step(s, AuthEvent::Verifier(Some(true)));
    assert!(matches!(a, AuthAction::ExchangeCode));
    assert!(matches!(auth_step(s, AuthEvent::Exchanged { ok: false, has_refresh_token: true }).1, AuthAction::Fail(AppError::AuthorizationServerError)));
    assert!(matches!(auth_step(s, AuthEvent::Exchanged { ok: true, has_refresh_token: false }).1, AuthAction::Fail(AppError::TokenRegistrationError)));
    let (s, a) = auth_step(s, AuthEvent::Exchanged { ok: true, has_refresh_token: true });
    assert!(matches!(a, AuthAction::StoreTokens));
    assert!(matches!(auth_step(s, AuthEvent::Stored(false)).1, AuthAction::Fail(AppError::InternalServerError)));
    let (s, a) = auth_step(s, AuthEvent::Stored(true));
    assert_eq!(s, AuthStage::Done);
    assert!(matches!(a, AuthAction::Redirect));
}
