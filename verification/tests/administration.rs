use shortlink_core::admin::create_finish;
use shortlink_core::admin::create_prepare;
use shortlink_core::admin::delete_check;
use shortlink_core::admin::delete_prepare;
use shortlink_core::admin::update_apply;
use shortlink_core::admin::update_prepare;
use shortlink_core::admin::CreateRequest;
use shortlink_core::admin::UpdateRequest;
use shortlink_core::codegen::generate;
use shortlink_core::errors::ApiError;
use shortlink_core::validate::Expiry;

const NOW: i64 = 1_700_000_000;

fn auth_header() -> Option<String> {
    Some("Bearer secret".to_string())
}

fn allowed() -> Vec<String> {
    vec!["secret".to_string()]
}

fn plain_create(url: &str) -> CreateRequest {
    CreateRequest {
        url: Some(url.to_string()),
        length: None,
        number: None,
        capital: None,
        lowercase: None,
        expiration: None,
        expiration_ttl: None,
    }
}

#[test]
fn create_needs_authorization() {
    let r = create_prepare(&None, &allowed(), &plain_create("http://example.com"), NOW);
    assert_eq!(r.err(), Some(ApiError::Forbidden));
    let r = create_prepare(
        &Some("Bearer wrong".to_string()),
        &allowed(),
        &plain_create("http://example.com"),
        NOW,
    );
    assert_eq!(r.err(), Some(ApiError::Forbidden));
}

#[test]
fn create_with_defaults_yields_a_six_character_alphanumeric_code() {
    let plan = create_prepare(&auth_header(), &allowed(), &plain_create("http://example.com"), NOW)
        .expect("plan");
    assert_eq!(plan.target, "http://example.com");
    assert_eq!(plan.length, 6);
    assert_eq!(plan.expiry, Expiry::Ttl(2_592_000));
    assert_eq!(
        plan.alphabet,
        "0123456789ABCDEFGHIJKLMNOPQRSTUVWXYZabcdefghijklmnopqrstuvwxyz"
    );

    let code = generate(&plan.alphabet, plan.length, |_k: &String| false, 64).expect("code");
    assert_eq!(code.chars().count(), 6);
    assert!(code.chars().all(|c| c.is_ascii_alphanumeric()));

    let (write, short) = create_finish(&plan, &code, "s.example.org");
    assert_eq!(write.key, code);
    assert_eq!(write.value, "http://example.com");
    assert_eq!(write.metadata, "http://example.com");
    assert_eq!(write.expiry, Expiry::Ttl(2_592_000));
    assert_eq!(short, format!("s.example.org/{code}"));
}

#[test]
fn create_honours_length_and_class_switches() {
    let mut req = plain_create("https://example.com/page");
    req.length = Some(3);
    req.capital = Some(false);
    req.lowercase = Some(false);
    let plan = create_prepare(&auth_header(), &allowed(), &req, NOW).expect("plan");
    assert_eq!(plan.length, 3);
    assert_eq!(plan.alphabet, "0123456789");
    let code = generate(&plan.alphabet, plan.length, |_k: &String| false, 64).expect("code");
    assert_eq!(code.chars().count(), 3);
    assert!(code.chars().all(|c| c.is_ascii_digit()));
}

#[test]
fn create_rejects_a_fully_disabled_alphabet() {
    let mut req = plain_create("http://example.com");
    req.number = Some(false);
    req.capital = Some(false);
    req.lowercase = Some(false);
    let r = create_prepare(&auth_header(), &allowed(), &req, NOW);
    assert_eq!(r.err(), Some(ApiError::EmptyAlphabet));
}

#[test]
fn create_metadata_is_truncated_to_the_limit() {
    let long = format!("http://example.com/{}", "a".repeat(2000));
    let plan = create_prepare(&auth_header(), &allowed(), &plain_create(&long), NOW).expect("plan");
    let (write, _) = create_finish(&plan, &"abc123".to_string(), "d.example");
    assert_eq!(write.value, long);
    assert_eq!(write.metadata.chars().count(), 1022);
    assert_eq!(write.metadata, long[..1022]);
}

#[test]
fn create_validation_errors_pass_through() {
    let mut req = plain_create("http://example.com");
    req.expiration = Some(NOW + 100);
    req.expiration_ttl = Some(3600);
    let r = create_prepare(&auth_header(), &allowed(), &req, NOW);
    assert_eq!(r.err(), Some(ApiError::ConflictingExpiration));
}

#[test]
fn update_requires_key_and_existing_entry() {
    let req = UpdateRequest {
        url: Some("http://new.example".to_string()),
        short: None,
        expiration: None,
        expiration_ttl: None,
    };
    let r = update_prepare(&auth_header(), &allowed(), &req, NOW);
    assert_eq!(r.err(), Some(ApiError::NoShortLink));

    let req = UpdateRequest { short: Some("abc".to_string()), ..req };
    let plan = update_prepare(&auth_header(), &allowed(), &req, NOW).expect("plan");
    assert_eq!(plan.key, "abc");
    // the key was not in the store: the non-exist error, not an upsert
    assert_eq!(update_apply(&plan, None).err(), Some(ApiError::UpdateNonexistent));
}

#[test]
fn update_defaults_target_to_the_stored_value() {
    let req = UpdateRequest {
        url: None,
        short: Some("abc".to_string()),
        expiration: None,
        expiration_ttl: Some(7200),
    };
    let plan = update_prepare(&auth_header(), &allowed(), &req, NOW).expect("plan");
    assert_eq!(plan.expiry, Expiry::Ttl(7200));
    let write = update_apply(&plan, Some("http://old.example".to_string())).expect("write");
    assert_eq!(write.key, "abc");
    assert_eq!(write.value, "http://old.example");
    assert_eq!(write.metadata, "http://old.example");
    assert_eq!(write.expiry, Expiry::Ttl(7200));
}

#[test]
fn update_is_refused_without_authorization() {
    let req = UpdateRequest {
        url: None,
        short: Some("abc".to_string()),
        expiration: None,
        expiration_ttl: None,
    };
    let r = update_prepare(&None, &allowed(), &req, NOW);
    assert_eq!(r.err(), Some(ApiError::Forbidden));
}

#[test]
fn delete_requires_key_and_existing_entry() {
    assert_eq!(
        delete_prepare(&auth_header(), &allowed(), &None).err(),
        Some(ApiError::ProvideShort)
    );
    assert_eq!(delete_prepare(&None, &allowed(), &Some("abc".to_string())).err(),
        Some(ApiError::Forbidden));
    let key = delete_prepare(&auth_header(), &allowed(), &Some("abc".to_string())).expect("key");
    assert_eq!(key, "abc");
    assert_eq!(delete_check(false).err(), Some(ApiError::DeleteNonexistent));
    assert_eq!(delete_check(true), Ok(()));
}
