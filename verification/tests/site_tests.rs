use rainbow_blog::clock::UtcTime;
use rainbow_blog::response::AppError;
use rainbow_blog::site::{
    admin_config, current_mode, default_locale, default_true, hash_admin_password,
    new_session_claims, new_user_id, plan_install, public_config, require_admin, session_claims,
    site_status, InstallRequest, SiteConfig, SiteConfigPatch, SiteConfigService,
};

fn empty_patch() -> SiteConfigPatch {
    SiteConfigPatch {
        site_name: None,
        site_description: None,
        site_logo: None,
        site_favicon: None,
        locale: None,
        theme_color: None,
        allow_register: None,
        allow_comments: None,
        seo_robots: None,
        footer_text: None,
        icp_text: None,
    }
}

fn request() -> InstallRequest {
    InstallRequest {
        site_name: "  My Site  ".to_string(),
        site_description: Some("desc".to_string()),
        locale: None,
        admin_email: "owner@example.com".to_string(),
        admin_password: "password1".to_string(),
        admin_username: "owner".to_string(),
        admin_display_name: None,
    }
}

#[test]
fn site_config_defaults() {
    let d = SiteConfig::default();
    assert!(!d.installed);
    assert_eq!(d.mode, "single");
    assert_eq!(d.site_name, "My Blog");
    assert_eq!(d.locale, "zh-CN");
    assert_eq!(d.theme_color.as_deref(), Some("#111827"));
    assert!(!d.allow_register && d.allow_comments && d.seo_robots);
    assert_eq!(default_locale(), "zh-CN");
    assert!(default_true());
}

#[test]
fn install_once_then_refuse() {
    let mut svc = SiteConfigService::new(None);
    assert!(!svc.is_installed());
    assert!(!svc.is_admin("u1"));
    let cfg = svc
        .install("single", "Blog", None, "en-US", "u1")
        .expect("first install succeeds");
    assert!(cfg.installed);
    assert_eq!(cfg.mode, "single");
    assert_eq!(cfg.site_name, "Blog");
    assert_eq!(cfg.locale, "en-US");
    assert_eq!(cfg.owner_user_id.as_deref(), Some("u1"));
    assert!(!cfg.allow_register);
    assert_eq!(cfg.created_at, cfg.updated_at);
    assert!(cfg.created_at.is_some());
    assert!(svc.is_installed());
    assert!(svc.is_admin("u1"));
    assert!(!svc.is_admin("u2"));
    match svc.install("single", "Other", None, "zh-CN", "u2") {
        Err(AppError::BadRequest(m)) => assert_eq!(m, "Site already installed"),
        other => panic!("unexpected {:?}", other),
    }
    assert_eq!(svc.get().unwrap().site_name, "Blog");
    assert!(svc.is_admin("u1"));
}

#[test]
fn platform_install_allows_registration() {
    let mut svc = SiteConfigService::new(None);
    let cfg = svc.install("platform", "P", None, "zh-CN", "o").unwrap();
    assert!(cfg.allow_register);
}

#[test]
fn uninstalled_row_can_be_installed() {
    let mut svc = SiteConfigService::new(Some(SiteConfig::default()));
    assert!(!svc.is_installed());
    assert!(svc.install("single", "B", None, "zh-CN", "o").is_ok());
}

#[test]
fn update_keeps_protected_fields() {
    let mut svc = SiteConfigService::new(None);
    let before = svc.install("single", "Blog", None, "zh-CN", "owner").unwrap();
    let mut patch = empty_patch();
    patch.site_name = Some("Renamed".to_string());
    patch.footer_text = Some(Some("footer".to_string()));
    patch.allow_comments = Some(false);
    let after = svc.update(patch).unwrap();
    assert_eq!(after.site_name, "Renamed");
    assert_eq!(after.footer_text.as_deref(), Some("footer"));
    assert!(!after.allow_comments);
    assert_eq!(after.mode, before.mode);
    assert_eq!(after.installed, before.installed);
    assert_eq!(after.owner_user_id, before.owner_user_id);
    assert_eq!(after.created_at, before.created_at);
    assert!(after.updated_at.is_some());
    assert!(svc.is_admin("owner"));
    let mut clear = empty_patch();
    clear.footer_text = Some(None);
    assert!(svc.update(clear).unwrap().footer_text.is_none());
}

#[test]
fn update_without_row_is_not_found() {
    let mut svc = SiteConfigService::new(None);
    match svc.update(empty_patch()) {
        Err(AppError::NotFound(m)) => assert_eq!(m, "site_config not found"),
        other => panic!("unexpected {:?}", other),
    }
}

#[test]
fn admin_check() {
    let mut svc = SiteConfigService::new(None);
    match require_admin(&svc, "u") {
        Err(AppError::Authorization(m)) => assert_eq!(m, "Admin only"),
        other => panic!("unexpected {:?}", other),
    }
    svc.install("single", "B", None, "zh-CN", "u").unwrap();
    assert!(require_admin(&svc, "u").is_ok());
    assert!(require_admin(&svc, "v").is_err());
}

#[test]
fn modes() {
    assert_eq!(current_mode(true), "single");
    assert_eq!(current_mode(false), "platform");
}

#[test]
fn status_and_public_config() {
    let mut svc = SiteConfigService::new(None);
    let st = site_status(&svc, "single".to_string());
    assert!(!st.installed);
    assert!(st.site_name.is_none());
    match public_config(&svc) {
        Err(AppError::NotFound(m)) => assert_eq!(m, "Site not installed"),
        other => panic!("unexpected {:?}", other.is_ok()),
    }
    assert!(admin_config(&svc).is_err());
    svc.install("single", "Blog", Some("d".into()), "zh-CN", "o").unwrap();
    let st = site_status(&svc, "single".to_string());
    assert!(st.installed);
    assert_eq!(st.site_name.as_deref(), Some("Blog"));
    let p = public_config(&svc).unwrap();
    assert_eq!(p.site_name, "Blog");
    assert_eq!(p.site_description.as_deref(), Some("d"));
    assert_eq!(p.mode, "single");
    assert_eq!(admin_config(&svc).unwrap().owner_user_id.as_deref(), Some("o"));
}

#[test]
fn install_plan_defaults() {
    let p = plan_install(false, &request()).unwrap();
    assert_eq!(p.site_name, "My Site");
    assert_eq!(p.locale, "zh-CN");
    assert_eq!(p.display_name, "owner");
    assert_eq!(p.site_description.as_deref(), Some("desc"));
    let mut req = request();
    req.locale = Some("en-US".into());
    req.admin_display_name = Some("The Owner".into());
    let p = plan_install(false, &req).unwrap();
    assert_eq!(p.locale, "en-US");
    assert_eq!(p.display_name, "The Owner");
}

#[test]
fn install_plan_refusals() {
    let msg = "site_name / admin_email / admin_username 必填，密码至少 8 位";
    match plan_install(true, &request()) {
        Err(AppError::BadRequest(m)) => assert_eq!(m, "Site already installed"),
        _ => panic!(),
    }
    let mut short = request();
    short.admin_password = "1234567".into();
    let mut blank_email = request();
    blank_email.admin_email = " \t".into();
    let mut blank_user = request();
    blank_user.admin_username = "".into();
    let mut blank_site = request();
    blank_site.site_name = "\u{3000}".into();
    for req in [short, blank_email, blank_user, blank_site] {
        match plan_install(false, &req) {
            Err(AppError::BadRequest(m)) => assert_eq!(m, msg),
            _ => panic!(),
        }
    }
    let mut eight_bytes = request();
    eight_bytes.admin_password = "密码12".into();
    assert!(plan_install(false, &eight_bytes).is_ok());
}

#[test]
fn session_claims_last_seven_days() {
    let c = session_claims("u1", "a@b.c", UtcTime { secs: 1_700_000_000, nanos: 0 }, "s".into());
    assert_eq!(c.sub, "u1");
    assert_eq!(c.iat, 1_700_000_000);
    assert_eq!(c.exp, 1_700_000_000 + 7 * 24 * 3600);
    assert_eq!(c.session_id.as_deref(), Some("s"));
    assert_eq!(c.email.as_deref(), Some("a@b.c"));
    let n = new_session_claims("u2", "x@y.z");
    assert_eq!(n.exp - n.iat, 604800);
    let sid = n.session_id.unwrap();
    assert_eq!(sid.len(), 36);
}

#[test]
fn user_ids_are_hyphenated_uuids() {
    let id = new_user_id();
    let parts: Vec<&str> = id.split('-').collect();
    assert_eq!(parts.iter().map(|p| p.len()).collect::<Vec<_>>(), vec![8, 4, 4, 4, 12]);
    assert!(id.chars().all(|c| c == '-' || c.is_ascii_hexdigit() && !c.is_ascii_uppercase()));
    assert_eq!(parts[2].chars().next(), Some('4'));
    assert!(matches!(parts[3].chars().next(), Some('8' | '9' | 'a' | 'b')));
    assert_ne!(new_user_id(), id);
}

#[test]
fn password_hash_is_argon2() {
    let h = hash_admin_password("password1").unwrap();
    assert!(h.starts_with("$argon2id$v=19$m=19456,t=2,p=1$"), "{}", h);
    assert!(h.len() > "$argon2id$v=19$m=19456,t=2,p=1$".len());
    assert_ne!(hash_admin_password("password1").unwrap(), h);
    let parsed = argon2::PasswordHash::new(&h).unwrap();
    assert!(argon2::PasswordVerifier::verify_password(
        &argon2::Argon2::default(),
        b"password1",
        &parsed
    )
    .is_ok());
    assert!(argon2::PasswordVerifier::verify_password(
        &argon2::Argon2::default(),
        b"password2",
        &parsed
    )
    .is_err());
}

#[test]
fn installation_survives_updates() {
    let mut svc = SiteConfigService::new(None);
    svc.install("single", "Blog", None, "zh-CN", "owner").unwrap();
    for name in ["One", "Two", "Three"] {
        let mut patch = empty_patch();
        patch.site_name = Some(name.to_string());
        patch.allow_register = Some(true);
        svc.update(patch).unwrap();
    }
    assert!(svc.is_installed());
    assert!(svc.is_admin("owner"));
    assert!(!svc.is_admin("other"));
    match svc.install("platform", "Again", None, "zh-CN", "other") {
        Err(AppError::BadRequest(m)) => assert_eq!(m, "Site already installed"),
        other => panic!("unexpected {:?}", other),
    }
    assert_eq!(svc.get().unwrap().site_name, "Three");
}
