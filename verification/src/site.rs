//! Site configuration: the single `site_config:main` row, the one-time
//! installation that creates it, the admin (owner) check, the updates an
//! admin may make, and the decisions of the install wizard.

use vstd::prelude::*;
use vstd::string::*;
use vstd::utf8::encode_utf8;
use crate::text::{is_blank, is_blank_text, is_trim_of, owned, push_str, str_equal, trim, TrimClass};
use crate::clock::{is_v4_uuid, new_uuid_string, now_utc, uuid_hyphenated, UtcTime};
use crate::response::AppError;

verus! {

broadcast use vstd::string::group_string_axioms;

/// The global site configuration (the single row `site_config:main`).
#[derive(Debug, Clone)]
pub struct SiteConfig {
    pub installed: bool,
    pub mode: String,
    pub site_name: String,
    pub site_description: Option<String>,
    pub site_logo: Option<String>,
    pub site_favicon: Option<String>,
    pub locale: String,
    pub theme_color: Option<String>,
    pub owner_user_id: Option<String>,
    pub allow_register: bool,
    pub allow_comments: bool,
    pub seo_robots: bool,
    pub footer_text: Option<String>,
    pub icp_text: Option<String>,
    pub created_at: Option<UtcTime>,
    pub updated_at: Option<UtcTime>,
}

/// The text of an optional string.
pub open spec fn opt_text(o: Option<String>) -> Option<Seq<char>> {
    match o {
        Some(s) => Some(s@),
        None => None,
    }
}

/// The locale a stored configuration falls back to.
pub fn default_locale() -> (r: String)
    ensures
        r@ == "zh-CN"@,
{
    owned("zh-CN")
}

/// The value that `allow_comments` and `seo_robots` fall back to.
pub fn default_true() -> (r: bool)
    ensures
        r,
{
    true
}

/// The default theme color.
pub open spec fn default_theme_color() -> Seq<char> {
    "#111827"@
}

fn copy_opt_string(o: &Option<String>) -> (r: Option<String>)
    ensures
        r == *o,
{
    match o {
        Some(s) => Some(s.clone()),
        None => None,
    }
}

impl SiteConfig {
    /// A field-by-field copy.
    pub fn copy(&self) -> (r: SiteConfig)
        ensures
            r == *self,
    {
        SiteConfig {
            installed: self.installed,
            mode: self.mode.clone(),
            site_name: self.site_name.clone(),
            site_description: copy_opt_string(&self.site_description),
            site_logo: copy_opt_string(&self.site_logo),
            site_favicon: copy_opt_string(&self.site_favicon),
            locale: self.locale.clone(),
            theme_color: copy_opt_string(&self.theme_color),
            owner_user_id: copy_opt_string(&self.owner_user_id),
            allow_register: self.allow_register,
            allow_comments: self.allow_comments,
            seo_robots: self.seo_robots,
            footer_text: copy_opt_string(&self.footer_text),
            icp_text: copy_opt_string(&self.icp_text),
            created_at: self.created_at,
            updated_at: self.updated_at,
        }
    }
}

impl Default for SiteConfig {
    fn default() -> (r: SiteConfig)
        ensures
            !r.installed,
            r.mode@ == "single"@,
            r.site_name@ == "My Blog"@,
            r.site_description is None,
            r.site_logo is None,
            r.site_favicon is None,
            r.locale@ == "zh-CN"@,
            opt_text(r.theme_color) == Some(default_theme_color()),
            r.owner_user_id is None,
            !r.allow_register,
            r.allow_comments,
            r.seo_robots,
            r.footer_text is None,
            r.icp_text is None,
            r.created_at is None,
            r.updated_at is None,
    {
        SiteConfig {
            installed: false,
            mode: owned("single"),
            site_name: owned("My Blog"),
            site_description: None,
            site_logo: None,
            site_favicon: None,
            locale: owned("zh-CN"),
            theme_color: Some(owned("#111827")),
            owner_user_id: None,
            allow_register: false,
            allow_comments: true,
            seo_robots: true,
            footer_text: None,
            icp_text: None,
            created_at: None,
            updated_at: None,
        }
    }
}

/// The fields of the configuration that an admin may change. A field left
/// `None` keeps its value; for an optional field, `Some(None)` clears it.
/// `mode`, `installed`, `owner_user_id` and `created_at` are not among them.
#[derive(Debug)]
pub struct SiteConfigPatch {
    pub site_name: Option<String>,
    pub site_description: Option<Option<String>>,
    pub site_logo: Option<Option<String>>,
    pub site_favicon: Option<Option<String>>,
    pub locale: Option<String>,
    pub theme_color: Option<Option<String>>,
    pub allow_register: Option<bool>,
    pub allow_comments: Option<bool>,
    pub seo_robots: Option<bool>,
    pub footer_text: Option<Option<String>>,
    pub icp_text: Option<Option<String>>,
}

/// A patched field: the new value if one is given, the old one otherwise.
pub open spec fn patched<T>(new: Option<T>, old: T) -> T {
    match new {
        Some(v) => v,
        None => old,
    }
}

fn patch_field<T>(new: Option<T>, old: T) -> (r: T)
    ensures
        r == patched(new, old),
{
    match new {
        Some(v) => v,
        None => old,
    }
}

/// The configuration `c` after the admin update `p` at time `t`.
pub open spec fn apply_patch(c: SiteConfig, p: SiteConfigPatch, t: UtcTime) -> SiteConfig {
    SiteConfig {
        installed: c.installed,
        mode: c.mode,
        site_name: patched(p.site_name, c.site_name),
        site_description: patched(p.site_description, c.site_description),
        site_logo: patched(p.site_logo, c.site_logo),
        site_favicon: patched(p.site_favicon, c.site_favicon),
        locale: patched(p.locale, c.locale),
        theme_color: patched(p.theme_color, c.theme_color),
        owner_user_id: c.owner_user_id,
        allow_register: patched(p.allow_register, c.allow_register),
        allow_comments: patched(p.allow_comments, c.allow_comments),
        seo_robots: patched(p.seo_robots, c.seo_robots),
        footer_text: patched(p.footer_text, c.footer_text),
        icp_text: patched(p.icp_text, c.icp_text),
        created_at: c.created_at,
        updated_at: Some(t),
    }
}

/// `c` is the configuration that installation writes.
pub open spec fn is_install_config(
    c: SiteConfig,
    mode: Seq<char>,
    site_name: Seq<char>,
    site_description: Option<String>,
    locale: Seq<char>,
    owner: Seq<char>,
) -> bool {
    &&& c.installed
    &&& c.mode@ == mode
    &&& c.site_name@ == site_name
    &&& c.site_description == site_description
    &&& c.site_logo is None
    &&& c.site_favicon is None
    &&& c.locale@ == locale
    &&& opt_text(c.theme_color) == Some(default_theme_color())
    &&& opt_text(c.owner_user_id) == Some(owner)
    &&& c.allow_register == (mode == "platform"@)
    &&& c.allow_comments
    &&& c.seo_robots
    &&& c.footer_text is None
    &&& c.icp_text is None
    &&& c.created_at is Some
    &&& c.created_at == c.updated_at
    &&& c.created_at.unwrap().wf()
}

/// Whether the stored row says the site is installed.
pub open spec fn row_installed(row: Option<SiteConfig>) -> bool {
    row matches Some(c) && c.installed
}

/// Whether the stored row names `user` as the site owner (the admin).
pub open spec fn row_admin(row: Option<SiteConfig>, user: Seq<char>) -> bool {
    row matches Some(c) && opt_text(c.owner_user_id) == Some(user)
}

/// The site configuration service over the stored `site_config:main` row.
#[derive(Debug)]
pub struct SiteConfigService {
    /// The stored row, when there is one.
    pub row: Option<SiteConfig>,
}

impl SiteConfigService {
    /// The service over a loaded row.
    pub fn new(row: Option<SiteConfig>) -> (r: Self)
        ensures
            r.row == row,
    {
        SiteConfigService { row }
    }

    /// The stored configuration.
    pub fn get(&self) -> (r: Option<&SiteConfig>)
        ensures
            r is None <==> self.row is None,
            r matches Some(c) ==> self.row == Some(*c),
    {
        match &self.row {
            Some(c) => Some(c),
            None => None,
        }
    }

    /// Whether the site has been installed.
    pub fn is_installed(&self) -> (r: bool)
        ensures
            r == row_installed(self.row),
    {
        match &self.row {
            Some(c) => c.installed,
            None => false,
        }
    }

    /// Whether `user_id` is the site owner (the admin).
    pub fn is_admin(&self, user_id: &str) -> (r: bool)
        ensures
            r == row_admin(self.row, user_id@),
    {
        match &self.row {
            Some(c) => match &c.owner_user_id {
                Some(owner) => str_equal(owner.as_str(), user_id),
                None => false,
            },
            None => false,
        }
    }

    /// First installation: refused with "Site already installed" when the
    /// site is installed; otherwise writes and returns the installed
    /// configuration, owned by `owner_user_id`, stamped with the current time.
    pub fn install(
        &mut self,
        mode: &str,
        site_name: &str,
        site_description: Option<String>,
        locale: &str,
        owner_user_id: &str,
    ) -> (r: Result<SiteConfig, AppError>)
        ensures
            row_installed(old(self).row) ==> (r matches Err(AppError::BadRequest(m)) && m@
                == "Site already installed"@ && final(self).row == old(self).row),
            !row_installed(old(self).row) ==> (r matches Ok(c) && final(self).row == Some(c)
                && is_install_config(
                c,
                mode@,
                site_name@,
                site_description,
                locale@,
                owner_user_id@,
            )),
    {
        if self.is_installed() {
            return Err(AppError::BadRequest(owned("Site already installed")));
        }
        let now = now_utc();
        let cfg = SiteConfig {
            installed: true,
            mode: owned(mode),
            site_name: owned(site_name),
            site_description,
            site_logo: None,
            site_favicon: None,
            locale: owned(locale),
            theme_color: Some(owned("#111827")),
            owner_user_id: Some(owned(owner_user_id)),
            allow_register: str_equal(mode, "platform"),
            allow_comments: true,
            seo_robots: true,
            footer_text: None,
            icp_text: None,
            created_at: Some(now),
            updated_at: Some(now),
        };
        let out = cfg.copy();
        self.row = Some(cfg);
        Ok(out)
    }

    /// An admin update: applies `patch`, stamps `updated_at` with the
    /// current time and returns the new configuration; "site_config not
    /// found" when there is no stored row.
    pub fn update(&mut self, patch: SiteConfigPatch) -> (r: Result<SiteConfig, AppError>)
        ensures
            old(self).row is None ==> (r matches Err(AppError::NotFound(m)) && m@
                == "site_config not found"@ && final(self).row is None),
            old(self).row matches Some(c) ==> (r matches Ok(n) && final(self).row == Some(n)
                && n.updated_at is Some && n.updated_at.unwrap().wf() && n == apply_patch(
                c,
                patch,
                n.updated_at.unwrap(),
            )),
        r matches Ok(n) ==> (patch.seo_robots matches Some(v) ==> n.seo_robots == v),
        r matches Ok(n) ==> (patch.allow_comments matches Some(v) ==> n.allow_comments == v),
        r matches Ok(n) ==> (patch.allow_register matches Some(v) ==> n.allow_register == v),
        r matches Ok(n) ==> (patch.site_name matches Some(v) ==> n.site_name == v),
        r matches Ok(n) ==> (patch.locale matches Some(v) ==> n.locale == v),
        r matches Ok(n) ==> (patch.site_description matches Some(v) ==> n.site_description == v),
        r matches Ok(n) ==> (patch.site_logo matches Some(v) ==> n.site_logo == v),
        r matches Ok(n) ==> (patch.site_favicon matches Some(v) ==> n.site_favicon == v),
        r matches Ok(n) ==> (patch.theme_color matches Some(v) ==> n.theme_color == v),
        r matches Ok(n) ==> (patch.footer_text matches Some(v) ==> n.footer_text == v),
        r matches Ok(n) ==> (patch.icp_text matches Some(v) ==> n.icp_text == v),
    {
        match self.row.take() {
            None => Err(AppError::NotFound(owned("site_config not found"))),
            Some(c) => {
                let now = now_utc();
                let n = SiteConfig {
                    installed: c.installed,
                    mode: c.mode,
                    site_name: patch_field(patch.site_name, c.site_name),
                    site_description: patch_field(patch.site_description, c.site_description),
                    site_logo: patch_field(patch.site_logo, c.site_logo),
                    site_favicon: patch_field(patch.site_favicon, c.site_favicon),
                    locale: patch_field(patch.locale, c.locale),
                    theme_color: patch_field(patch.theme_color, c.theme_color),
                    owner_user_id: c.owner_user_id,
                    allow_register: patch_field(patch.allow_register, c.allow_register),
                    allow_comments: patch_field(patch.allow_comments, c.allow_comments),
                    seo_robots: patch_field(patch.seo_robots, c.seo_robots),
                    footer_text: patch_field(patch.footer_text, c.footer_text),
                    icp_text: patch_field(patch.icp_text, c.icp_text),
                    created_at: c.created_at,
                    updated_at: Some(now),
                };
                let out = n.copy();
                self.row = Some(n);
                Ok(out)
            },
        }
    }
}

/// Allows only the site owner: "Admin only" otherwise.
pub fn require_admin(service: &SiteConfigService, user_id: &str) -> (r: Result<(), AppError>)
    ensures
        r is Ok <==> row_admin(service.row, user_id@),
        r matches Err(e) ==> (e matches AppError::Authorization(m) && m@ == "Admin only"@),
{
    if service.is_admin(user_id) {
        Ok(())
    } else {
        Err(AppError::Authorization(owned("Admin only")))
    }
}

/// Installation's second look, when creating the `site_config:main` row
/// failed because a row is there: the stored row, read again, may be
/// overwritten only while it does not say the site is installed; once
/// another installation has written it, this one is refused with "Site
/// already installed".
pub fn recheck_install(stored: &SiteConfigService) -> (r: Result<(), AppError>)
    ensures
        r is Ok <==> !row_installed(stored.row),
        r matches Err(e) ==> (e matches AppError::BadRequest(m) && m@ == "Site already installed"@),
{
    if stored.is_installed() {
        Err(AppError::BadRequest(owned("Site already installed")))
    } else {
        Ok(())
    }
}

/// The deployment mode that the binary was built for.
pub fn current_mode(single: bool) -> (r: String)
    ensures
        single ==> r@ == "single"@,
        !single ==> r@ == "platform"@,
{
    if single {
        owned("single")
    } else {
        owned("platform")
    }
}

/// The answer of the public status endpoint.
#[derive(Debug)]
pub struct SiteStatus {
    pub installed: bool,
    pub mode: String,
    pub site_name: Option<String>,
}

/// The public status: installed or not, the mode, and the site name when
/// there is a stored configuration.
pub fn site_status(service: &SiteConfigService, mode: String) -> (r: SiteStatus)
    ensures
        r.installed == row_installed(service.row),
        r.mode == mode,
        r.site_name == match service.row {
            Some(c) => Some(c.site_name),
            None => None,
        },
{
    match &service.row {
        Some(c) => SiteStatus {
            installed: c.installed,
            mode,
            site_name: Some(c.site_name.clone()),
        },
        None => SiteStatus { installed: false, mode, site_name: None },
    }
}

/// The branding that the public configuration endpoint shows: the
/// configuration without its owner, installation flag, robots flag or
/// timestamps.
#[derive(Debug)]
pub struct PublicSiteConfig {
    pub site_name: String,
    pub site_description: Option<String>,
    pub site_logo: Option<String>,
    pub site_favicon: Option<String>,
    pub locale: String,
    pub theme_color: Option<String>,
    pub allow_register: bool,
    pub allow_comments: bool,
    pub footer_text: Option<String>,
    pub icp_text: Option<String>,
    pub mode: String,
}

/// The public branding of an installed site; "Site not installed" when
/// there is no stored configuration.
pub fn public_config(service: &SiteConfigService) -> (r: Result<PublicSiteConfig, AppError>)
    ensures
        service.row is None ==> (r matches Err(AppError::NotFound(m)) && m@
            == "Site not installed"@),
        service.row matches Some(c) ==> (r matches Ok(p) && p.site_name == c.site_name
            && p.site_description == c.site_description && p.site_logo == c.site_logo
            && p.site_favicon == c.site_favicon && p.locale == c.locale && p.theme_color
            == c.theme_color && p.allow_register == c.allow_register && p.allow_comments
            == c.allow_comments && p.footer_text == c.footer_text && p.icp_text == c.icp_text
            && p.mode == c.mode),
{
    match &service.row {
        None => Err(AppError::NotFound(owned("Site not installed"))),
        Some(c) => Ok(
            PublicSiteConfig {
                site_name: c.site_name.clone(),
                site_description: copy_opt_string(&c.site_description),
                site_logo: copy_opt_string(&c.site_logo),
                site_favicon: copy_opt_string(&c.site_favicon),
                locale: c.locale.clone(),
                theme_color: copy_opt_string(&c.theme_color),
                allow_register: c.allow_register,
                allow_comments: c.allow_comments,
                footer_text: copy_opt_string(&c.footer_text),
                icp_text: copy_opt_string(&c.icp_text),
                mode: c.mode.clone(),
            },
        ),
    }
}

/// The full configuration for an admin: "Site not installed" when there is
/// no stored configuration.
pub fn admin_config(service: &SiteConfigService) -> (r: Result<SiteConfig, AppError>)
    ensures
        service.row is None ==> (r matches Err(AppError::NotFound(m)) && m@
            == "Site not installed"@),
        service.row matches Some(c) ==> r == Ok::<SiteConfig, AppError>(c),
{
    match &service.row {
        None => Err(AppError::NotFound(owned("Site not installed"))),
        Some(c) => Ok(c.copy()),
    }
}

/// The body of the install wizard's request.
#[derive(Debug)]
pub struct InstallRequest {
    pub site_name: String,
    pub site_description: Option<String>,
    pub locale: Option<String>,
    pub admin_email: String,
    pub admin_password: String,
    pub admin_username: String,
    pub admin_display_name: Option<String>,
}

/// The message that refuses an incomplete install request.
pub open spec fn install_fields_message() -> Seq<char> {
    "site_name / admin_email / admin_username 必填，密码至少 8 位"@
}

/// The install request lacks a required field or has a password shorter
/// than eight bytes.
pub open spec fn install_request_incomplete(req: InstallRequest) -> bool {
    ||| is_blank_text(req.admin_email@)
    ||| (encode_utf8(req.admin_password@).len() as usize) < 8
    ||| is_blank_text(req.admin_username@)
    ||| is_blank_text(req.site_name@)
}

/// What the install wizard does once the request is accepted.
#[derive(Debug)]
pub struct InstallPlan {
    /// The site name, trimmed.
    pub site_name: String,
    pub site_description: Option<String>,
    /// The requested locale, `zh-CN` when none is given.
    pub locale: String,
    /// The admin's display name, the username when none is given.
    pub display_name: String,
}

/// Checks an install request: "Site already installed" when the site is
/// installed, the missing-field message when the request is incomplete, and
/// otherwise the values that the installation uses.
pub fn plan_install(installed: bool, req: &InstallRequest) -> (r: Result<InstallPlan, AppError>)
    ensures
        installed ==> (r matches Err(AppError::BadRequest(m)) && m@
            == "Site already installed"@),
        !installed && install_request_incomplete(*req) ==> (r matches Err(AppError::BadRequest(m))
            && m@ == install_fields_message()),
        !installed && !install_request_incomplete(*req) ==> (r matches Ok(p) && is_trim_of(
            TrimClass::Whitespace,
            req.site_name@,
            p.site_name@,
        ) && p.site_description == req.site_description && p.locale@ == match opt_text(
            req.locale,
        ) {
            Some(l) => l,
            None => "zh-CN"@,
        } && p.display_name@ == match opt_text(req.admin_display_name) {
            Some(d) => d,
            None => req.admin_username@,
        }),
{
    if installed {
        return Err(AppError::BadRequest(owned("Site already installed")));
    }
    if is_blank(req.admin_email.as_str()) || req.admin_password.as_str().len() < 8 || is_blank(
        req.admin_username.as_str(),
    ) || is_blank(req.site_name.as_str()) {
        return Err(
            AppError::BadRequest(owned("site_name / admin_email / admin_username 必填，密码至少 8 位")),
        );
    }
    let locale = match &req.locale {
        Some(l) => l.clone(),
        None => owned("zh-CN"),
    };
    let display_name = match &req.admin_display_name {
        Some(d) => d.clone(),
        None => req.admin_username.clone(),
    };
    Ok(
        InstallPlan {
            site_name: owned(trim(req.site_name.as_str())),
            site_description: copy_opt_string(&req.site_description),
            locale,
            display_name,
        },
    )
}

/// The start of every PHC string that `Argon2::default()` writes: the
/// Argon2id algorithm, version 19 and the default parameters (19456 KiB of
/// memory, 2 passes, 1 lane).
pub open spec fn argon2_default_phc_prefix() -> Seq<char> {
    "$argon2id$v=19$m=19456,t=2,p=1$"@
}

/// `s` starts with the PHC prefix of Argon2's defaults.
pub open spec fn is_default_argon2_phc(s: Seq<char>) -> bool {
    &&& s.len() > argon2_default_phc_prefix().len()
    &&& s.take(argon2_default_phc_prefix().len() as int) == argon2_default_phc_prefix()
}

/// Argon2 accepts password bytes `pwd` against the PHC string `phc`: the
/// string parses as a `PasswordHash` and `PasswordVerifier::verify_password`
/// of Argon2 succeeds for `pwd` with it.
pub uninterp spec fn spec_argon2_verifies(pwd: Seq<u8>, phc: Seq<char>) -> bool;

/// `PasswordHasher::hash_password` of `Argon2::default()` over the password's
/// bytes, with a salt from `SaltString::generate(&mut OsRng)`, rendered by
/// the PHC `Display` of `PasswordHash`; on failure, the error's text.
/// Claimed, from argon2 0.5.3 and password-hash 0.5.0: the hash starts with
/// the prefix of Argon2's defaults (`$argon2id$v=19$m=19456,t=2,p=1$`), and
/// hashing fails only for a password longer than `argon2::MAX_PWD_LEN`
/// (`0xFFFFFFFF`) bytes, since a generated salt always has sixteen bytes;
/// and, as password-hash documents for every `PasswordHasher`, Argon2
/// verifies the password's bytes against the hash it produced. The random
/// salt, and so the digest, after the prefix are not described.
#[verifier::external_body]
fn argon2_hash(password: &str) -> (r: Result<String, String>)
    ensures
        encode_utf8(password@).len() <= 0xFFFF_FFFF ==> r is Ok,
        r matches Ok(h) ==> is_default_argon2_phc(h@),
        r matches Ok(h) ==> spec_argon2_verifies(encode_utf8(password@), h@),
{
    let salt = argon2::password_hash::SaltString::generate(
        &mut argon2::password_hash::rand_core::OsRng,
    );
    match argon2::PasswordHasher::hash_password(
        &argon2::Argon2::default(),
        password.as_bytes(),
        &salt,
    ) {
        Ok(h) => Ok(h.to_string()),
        Err(e) => Err(e.to_string()),
    }
}

/// Hashes the admin password with Argon2 (default parameters) and a fresh
/// random salt into a PHC string against which Argon2 verifies the
/// password; a failure, which only a password longer than `0xFFFFFFFF`
/// bytes meets, becomes an internal error whose message starts with
/// "hash failed: ".
pub fn hash_admin_password(password: &str) -> (r: Result<String, AppError>)
    ensures
        encode_utf8(password@).len() <= 0xFFFF_FFFF ==> r is Ok,
        r matches Ok(h) ==> is_default_argon2_phc(h@),
        r matches Ok(h) ==> spec_argon2_verifies(encode_utf8(password@), h@),
        r matches Err(e) ==> (e matches AppError::Internal(m) && m@.len() >= 13 && m@.take(13)
            == "hash failed: "@),
{
    match argon2_hash(password) {
        Ok(h) => Ok(h),
        Err(text) => {
            let mut m = owned("hash failed: ");
            push_str(&mut m, text.as_str());
            proof {
                reveal_strlit("hash failed: ");
                assert(m@.take(13) =~= "hash failed: "@);
            }
            Err(AppError::Internal(m))
        },
    }
}

/// A fresh user id for the site owner.
pub fn new_user_id() -> (r: String)
    ensures
        exists|b: Seq<u8>| is_v4_uuid(b) && r@ == #[trigger] uuid_hyphenated(b),
{
    new_uuid_string()
}

/// The claims of a session token.
#[derive(Debug)]
pub struct Claims {
    pub sub: String,
    pub exp: i64,
    pub iat: i64,
    pub session_id: Option<String>,
    pub email: Option<String>,
}

/// Seven days, in seconds: how long a session token lasts.
pub open spec fn session_lifetime_secs() -> int {
    604800
}

/// The claims of a session token issued at `now` with the given session id:
/// valid for seven days.
pub fn session_claims(user_id: &str, email: &str, now: UtcTime, session_id: String) -> (r: Claims)
    requires
        now.wf(),
    ensures
        r.sub@ == user_id@,
        r.iat == now.secs,
        r.exp == now.secs + session_lifetime_secs(),
        r.session_id == Some(session_id),
        opt_text(r.email) == Some(email@),
{
    Claims {
        sub: owned(user_id),
        exp: now.secs + 604800,
        iat: now.secs,
        session_id: Some(session_id),
        email: Some(owned(email)),
    }
}

/// The claims of a new session token for the site owner, issued now with a
/// fresh random session id.
pub fn new_session_claims(user_id: &str, email: &str) -> (r: Claims)
    ensures
        r.sub@ == user_id@,
        r.exp == r.iat + session_lifetime_secs(),
        r.session_id matches Some(s) && exists|b: Seq<u8>| is_v4_uuid(b) && s@
            == #[trigger] uuid_hyphenated(b),
        opt_text(r.email) == Some(email@),
{
    let now = now_utc();
    let sid = new_uuid_string();
    session_claims(user_id, email, now, sid)
}

/// Installation makes the site installed, owned by the installing user, who
/// is then its only admin.
pub proof fn law_install_makes_owner_admin(
    c: SiteConfig,
    mode: Seq<char>,
    site_name: Seq<char>,
    site_description: Option<String>,
    locale: Seq<char>,
    owner: Seq<char>,
    other: Seq<char>,
)
    requires
        is_install_config(c, mode, site_name, site_description, locale, owner),
        other != owner,
    ensures
        row_installed(Some(c)),
        row_admin(Some(c), owner),
        !row_admin(Some(c), other),
{
}

/// An admin update never changes the mode, the installation flag, the owner
/// or the creation time, so it never changes who the admin is.
pub proof fn law_update_keeps_protected_fields(
    c: SiteConfig,
    p: SiteConfigPatch,
    t: UtcTime,
    user: Seq<char>,
)
    ensures
        apply_patch(c, p, t).mode == c.mode,
        apply_patch(c, p, t).installed == c.installed,
        apply_patch(c, p, t).owner_user_id == c.owner_user_id,
        apply_patch(c, p, t).created_at == c.created_at,
        row_installed(Some(apply_patch(c, p, t))) == row_installed(Some(c)),
        row_admin(Some(apply_patch(c, p, t)), user) == row_admin(Some(c), user),
{
}

/// The configuration after a series of admin updates, each with its time.
pub open spec fn apply_patches(c: SiteConfig, updates: Seq<(SiteConfigPatch, UtcTime)>) -> SiteConfig
    decreases updates.len(),
{
    if updates.len() == 0 {
        c
    } else {
        apply_patch(apply_patches(c, updates.drop_last()), updates.last().0, updates.last().1)
    }
}

/// Installation is final: once the site is installed, no series of admin
/// updates un-installs it or changes who its admin is, so every later
/// installation is refused and the installing owner stays the only admin.
pub proof fn law_installed_site_stays_installed(
    c: SiteConfig,
    updates: Seq<(SiteConfigPatch, UtcTime)>,
    user: Seq<char>,
)
    requires
        row_installed(Some(c)),
    ensures
        row_installed(Some(apply_patches(c, updates))),
        row_admin(Some(apply_patches(c, updates)), user) == row_admin(Some(c), user),
        apply_patches(c, updates).mode == c.mode,
    decreases updates.len(),
{
    if updates.len() > 0 {
        law_installed_site_stays_installed(c, updates.drop_last(), user);
    }
}

/// An admin update sets each field that the patch gives to the value given
/// and keeps each field that the patch leaves out, field by field; it
/// stamps the update time and keeps the mode, installation flag, owner and
/// creation time.
pub proof fn law_patch_sets_given_fields(c: SiteConfig, p: SiteConfigPatch, t: UtcTime)
    ensures
        p.site_name matches Some(v) ==> apply_patch(c, p, t).site_name == v,
        p.site_name is None ==> apply_patch(c, p, t).site_name == c.site_name,
        p.site_description matches Some(v) ==> apply_patch(c, p, t).site_description == v,
        p.site_description is None ==> apply_patch(c, p, t).site_description == c.site_description,
        p.site_logo matches Some(v) ==> apply_patch(c, p, t).site_logo == v,
        p.site_logo is None ==> apply_patch(c, p, t).site_logo == c.site_logo,
        p.site_favicon matches Some(v) ==> apply_patch(c, p, t).site_favicon == v,
        p.site_favicon is None ==> apply_patch(c, p, t).site_favicon == c.site_favicon,
        p.locale matches Some(v) ==> apply_patch(c, p, t).locale == v,
        p.locale is None ==> apply_patch(c, p, t).locale == c.locale,
        p.theme_color matches Some(v) ==> apply_patch(c, p, t).theme_color == v,
        p.theme_color is None ==> apply_patch(c, p, t).theme_color == c.theme_color,
        p.allow_register matches Some(v) ==> apply_patch(c, p, t).allow_register == v,
        p.allow_register is None ==> apply_patch(c, p, t).allow_register == c.allow_register,
        p.allow_comments matches Some(v) ==> apply_patch(c, p, t).allow_comments == v,
        p.allow_comments is None ==> apply_patch(c, p, t).allow_comments == c.allow_comments,
        p.seo_robots matches Some(v) ==> apply_patch(c, p, t).seo_robots == v,
        p.seo_robots is None ==> apply_patch(c, p, t).seo_robots == c.seo_robots,
        p.footer_text matches Some(v) ==> apply_patch(c, p, t).footer_text == v,
        p.footer_text is None ==> apply_patch(c, p, t).footer_text == c.footer_text,
        p.icp_text matches Some(v) ==> apply_patch(c, p, t).icp_text == v,
        p.icp_text is None ==> apply_patch(c, p, t).icp_text == c.icp_text,
        apply_patch(c, p, t).updated_at == Some(t),
        apply_patch(c, p, t).mode == c.mode,
        apply_patch(c, p, t).installed == c.installed,
        apply_patch(c, p, t).owner_user_id == c.owner_user_id,
        apply_patch(c, p, t).created_at == c.created_at,
{
}

/// An empty update changes nothing but the update time.
pub proof fn law_empty_update_only_stamps(c: SiteConfig, p: SiteConfigPatch, t: UtcTime)
    requires
        p.site_name is None,
        p.site_description is None,
        p.site_logo is None,
        p.site_favicon is None,
        p.locale is None,
        p.theme_color is None,
        p.allow_register is None,
        p.allow_comments is None,
        p.seo_robots is None,
        p.footer_text is None,
        p.icp_text is None,
    ensures
        apply_patch(c, p, t) == (SiteConfig { updated_at: Some(t), ..c }),
{
}

} // verus!
