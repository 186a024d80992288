use boringssl::Context;
use boringssl::Error;
use boringssl::VerifyMode;
use boringssl::TLS1_2_VERSION;
use boringssl::TLS1_VERSION;

#[test]
fn it_compiles() {
    let mut ssl_ctx = match Context::new(true) {
        Ok(ctx) => ctx,
        Err(_) => {
            panic!("SSL_CTX failed");
        }
    };

    ssl_ctx.set_min_version(TLS1_2_VERSION);
    ssl_ctx.set_verify(VerifyMode::NoVerify);
    ssl_ctx.enable_signed_cert_timestamps();
    ssl_ctx.enable_ocsp_stapling();
    assert!(ssl_ctx.enable_tls_channel_id(1).is_ok());
}

#[test]
fn create_starts_from_engine_defaults() {
    let ctx = Context::new(true).unwrap();
    let p = ctx.policy();
    assert_eq!(p.min_version, TLS1_VERSION);
    assert_eq!(p.verify, VerifyMode::NoVerify);
    assert!(!p.cipher_applied);
    assert!(!p.signed_cert_timestamps);
    assert!(!p.ocsp_stapling);
    assert!(!p.channel_id);
    assert!(!ctx.is_released());
}

#[test]
fn create_fails_when_engine_cannot_allocate() {
    match Context::new(false) {
        Err(Error::AllocationFailed) => {}
        _ => panic!("expected AllocationFailed"),
    }
}

#[test]
fn cipher_list_rejection_leaves_policy_untouched() {
    let mut ctx = Context::new(true).unwrap();
    assert!(!ctx.set_cipher_list("NOT-A-CIPHER", false));
    assert!(!ctx.policy().cipher_applied);
    assert!(ctx.set_cipher_list("HIGH:!aNULL", true));
    assert!(ctx.policy().cipher_applied);
}

#[test]
fn setters_update_the_policy() {
    let mut ctx = Context::new(true).unwrap();
    ctx.set_min_version(TLS1_2_VERSION);
    assert_eq!(ctx.policy().min_version, TLS1_2_VERSION);
    ctx.set_verify(VerifyMode::Peer);
    assert_eq!(ctx.policy().verify, VerifyMode::Peer);
    ctx.enable_signed_cert_timestamps();
    assert!(ctx.policy().signed_cert_timestamps);
    ctx.enable_ocsp_stapling();
    assert!(ctx.policy().ocsp_stapling);
}

#[test]
fn channel_id_violation_is_flagged_fatal() {
    let mut ctx = Context::new(true).unwrap();
    match ctx.enable_tls_channel_id(0) {
        Err(Error::Unrecognized) => {}
        _ => panic!("expected Unrecognized"),
    }
    assert!(!ctx.policy().channel_id);
    assert!(ctx.enable_tls_channel_id(1).is_ok());
    assert!(ctx.policy().channel_id);
}

#[test]
fn context_release_frees_exactly_once() {
    let mut ctx = Context::new(true).unwrap();
    assert!(ctx.release());
    assert!(!ctx.release());
    assert!(!ctx.release());
    assert!(ctx.is_released());
}
