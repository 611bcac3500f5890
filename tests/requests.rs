use toolkit::auth::{
    bearer_token, verify_apikey, ApiTags, AuthError, BasicAuth, FirebaseMessaging, TokenError,
};
use toolkit::extract::{health_check_url, png_data_uri, screenshot_data_uri};
use toolkit::fcm::{cron_example, message_endpoint, name_example, split_payload, Notification};
use toolkit::media::{get_post_id, is_instagram_url, is_unsupported_url_error, LinkError};
use toolkit::text::{contains_text, strip_prefix};

#[test]
fn api_key_checks() {
    let key = "SECRET-REDACTED".to_string();
    assert_eq!(verify_apikey(None, &key), Err(AuthError::MissingKey));
    assert_eq!(verify_apikey(Some("wrong"), &key), Err(AuthError::InvalidKey));
    assert_eq!(verify_apikey(Some("SECRET-REDACTED"), &key), Ok(()));
    assert_eq!(AuthError::MissingKey.message(), "API-Key header is missing");
    assert_eq!(AuthError::InvalidKey.message(), "Invalid API-Key");
}

#[test]
fn basic_auth_admits_only_matching_credentials() {
    let auth = BasicAuth::new("admin".to_string(), "pw".to_string());
    let ep = auth.transform(7u8);
    assert_eq!(ep.ep, 7);
    assert!(ep.admits(Some(("admin", "pw"))));
    assert!(!ep.admits(Some(("admin", "nope"))));
    assert!(!ep.admits(Some(("root", "pw"))));
    assert!(!ep.admits(None));
}

#[test]
fn bearer_token_extraction() {
    assert_eq!(bearer_token(None), Err(TokenError::Missing));
    assert_eq!(bearer_token(Some("Basic abc")), Err(TokenError::Invalid));
    assert_eq!(bearer_token(Some("Bearer abc.def")), Ok("abc.def".to_string()));
    assert_eq!(bearer_token(Some("Bearer ")), Ok(String::new()));
    assert_eq!(TokenError::Missing.message(), "unable to extract token");
    assert_eq!(TokenError::Invalid.message(), "invalid token");
}

#[test]
fn projects_served() {
    let fcm = FirebaseMessaging::new(vec!["alpha".to_string(), "beta".to_string()]);
    assert!(fcm.serves_project("beta"));
    assert!(!fcm.serves_project("gamma"));
    assert!(!FirebaseMessaging::new(Vec::new()).serves_project("alpha"));
    assert_eq!(ApiTags::Selenium, ApiTags::Selenium);
}

#[test]
fn screenshot_becomes_a_png_data_uri() {
    assert_eq!(screenshot_data_uri(&b"abc".to_vec()), "data:image/png;base64,YWJj");
    assert_eq!(screenshot_data_uri(&vec![0xff, 0x00]), "data:image/png;base64,/wA=");
    assert_eq!(screenshot_data_uri(&Vec::new()), "data:image/png;base64,");
    assert_eq!(png_data_uri("QQ=="), "data:image/png;base64,QQ==");
}

#[test]
fn health_probe_renders_a_known_page() {
    assert_eq!(health_check_url(), "https://example.com");
}

#[test]
fn post_ids_from_links() {
    assert_eq!(get_post_id("https://www.instagram.com/p/CxYz_1-a/"), Ok("CxYz_1-a".to_string()));
    assert_eq!(get_post_id("https://instagram.com/reel/Abc123?igsh=x"), Ok("Abc123".to_string()));
    assert_eq!(get_post_id("https://www.instagram.com/reels/Q9"), Ok("Q9".to_string()));
    assert_eq!(get_post_id("https://www.instagram.com/p/"), Err(LinkError::NoPostId));
    assert_eq!(get_post_id("https://www.instagram.com/stories/abc"), Err(LinkError::NoPostId));
    assert_eq!(get_post_id("http://instagram.com/p/abc"), Err(LinkError::NoPostId));
    assert_eq!(LinkError::NoPostId.message(), "Instagram post/reel ID was not found");
}

#[test]
fn instagram_links_recognised() {
    assert_eq!(is_instagram_url("https://www.instagram.com/p/abc"), Ok(true));
    assert_eq!(is_instagram_url("https://youtube.com/watch?v=1"), Ok(false));
    assert_eq!(is_instagram_url("not a url"), Err(LinkError::Unparsable));
    assert_eq!(is_instagram_url("https://127.0.0.1/x"), Err(LinkError::NoDomain));
}

#[test]
fn unsupported_url_errors_recognised() {
    assert!(is_unsupported_url_error("yt-dlp: ERROR: Unsupported URL: https://x"));
    assert!(!is_unsupported_url_error("ERROR: network down"));
}

#[test]
fn text_helpers() {
    assert!(contains_text("abc", ""));
    assert!(contains_text("abcabd", "abd"));
    assert!(!contains_text("ab", "abc"));
    assert_eq!(strip_prefix("prefix-rest", "prefix-"), Some("rest".to_string()));
    assert_eq!(strip_prefix("pre", "prefix"), None);
}

#[test]
fn payload_split_into_notification_and_data() {
    let data = vec![
        ("title".to_string(), "Reminder".to_string()),
        ("foo".to_string(), "bar".to_string()),
        ("body".to_string(), "Drink water".to_string()),
        ("x".to_string(), "1".to_string()),
    ];
    let (n, rest) = split_payload(data);
    assert_eq!(n.title.as_deref(), Some("Reminder"));
    assert_eq!(n.body.as_deref(), Some("Drink water"));
    assert!(!n.is_empty());
    assert_eq!(
        rest,
        vec![("foo".to_string(), "bar".to_string()), ("x".to_string(), "1".to_string())]
    );
    let (n, rest) = split_payload(vec![("k".to_string(), "v".to_string())]);
    assert!(n.is_empty());
    assert_eq!(rest.len(), 1);
    let empty = Notification { title: None, body: None };
    assert!(empty.is_empty());
}

#[test]
fn schedule_examples_and_endpoint() {
    assert_eq!(cron_example(), "*/1 * * * *");
    assert_eq!(name_example(), "Remind me to drink water every 45 minutes");
    assert_eq!(
        message_endpoint("my-project"),
        "https://fcm.googleapis.com/v1/projects/my-project/messages:send"
    );
}
