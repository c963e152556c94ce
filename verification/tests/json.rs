use theme_render::json::append_json_str;
use theme_render::json::profile_to_json;
use theme_render::profile::InstanceInfo;
use theme_render::profile::LinkInfo;
use theme_render::profile::PageInfo;
use theme_render::profile::ProfileData;
use theme_render::profile::SocialLinkInfo;

fn small_profile() -> ProfileData {
    ProfileData {
        instance_info: InstanceInfo { url: "https://example.com".to_string() },
        handle: "alice".to_string(),
        display_name: None,
        tags: vec!["a".to_string(), "b".to_string()],
        bio: None,
        social_links: vec![],
        links: vec![],
        pages: vec![],
    }
}

#[test]
fn small_profile_exact_json() {
    let json = profile_to_json(&small_profile());
    assert_eq!(
        json,
        "{\"instance_info\":{\"url\":\"https://example.com\"},\"handle\":\"alice\",\
         \"tags\":[\"a\",\"b\"],\"social_links\":[],\"links\":[],\"pages\":[]}"
    );
}

#[test]
fn full_profile_exact_json() {
    let p = ProfileData {
        instance_info: InstanceInfo { url: "u".to_string() },
        handle: "h".to_string(),
        display_name: Some("d".to_string()),
        tags: vec![],
        bio: Some("b".to_string()),
        social_links: vec![SocialLinkInfo {
            url: "su".to_string(),
            label: Some("sl".to_string()),
            platform_name: None,
            icon: None,
            icon_name: Some("si".to_string()),
        }],
        links: vec![
            LinkInfo { url: "l1".to_string(), label: None },
            LinkInfo { url: "l2".to_string(), label: Some("L2".to_string()) },
        ],
        pages: vec![PageInfo { slug: "s".to_string(), name: Some("n".to_string()) }],
    };
    assert_eq!(
        profile_to_json(&p),
        "{\"instance_info\":{\"url\":\"u\"},\"handle\":\"h\",\"display_name\":\"d\",\
         \"tags\":[],\"bio\":\"b\",\
         \"social_links\":[{\"url\":\"su\",\"label\":\"sl\",\"icon_name\":\"si\"}],\
         \"links\":[{\"url\":\"l1\"},{\"url\":\"l2\",\"label\":\"L2\"}],\
         \"pages\":[{\"slug\":\"s\",\"name\":\"n\"}]}"
    );
}

#[test]
fn absent_fields_are_omitted() {
    let json = profile_to_json(&small_profile());
    assert!(!json.contains("display_name"));
    assert!(!json.contains("bio"));
}

#[test]
fn string_escaping() {
    let mut out = String::new();
    append_json_str(&mut out, "a\"b\\c\nd\re\tf\u{1}g\u{1f}");
    assert_eq!(out, "\"a\\\"b\\\\c\\nd\\re\\tf\\u0001g\\u001f\"");
}

#[test]
fn escaped_json_parses_back() {
    let mut out = String::new();
    append_json_str(&mut out, "quote \" slash \\ tab \t done");
    let parsed: serde_json::Value = serde_json::from_str(&out).unwrap();
    assert_eq!(parsed.as_str().unwrap(), "quote \" slash \\ tab \t done");
}

#[test]
fn profile_json_is_valid_json() {
    let json = profile_to_json(&small_profile());
    let v: serde_json::Value = serde_json::from_str(&json).unwrap();
    assert_eq!(v["handle"].as_str().unwrap(), "alice");
    assert_eq!(v["instance_info"]["url"].as_str().unwrap(), "https://example.com");
    assert_eq!(v["tags"][1].as_str().unwrap(), "b");
}
