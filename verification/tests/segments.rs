use ikuncodeline::api::config::ConfigSource;
use ikuncodeline::api::{ApiConfig, BalanceData, UserData};
use ikuncodeline::segments::balance::BalanceSegment;
use ikuncodeline::segments::branding::{BrandingSegment, BRAND};
use ikuncodeline::segments::group::GroupSegment;
use ikuncodeline::segments::{SegmentData, SegmentId};

fn balance(quota: i64, used_quota: i64, group: &str) -> BalanceData {
    BalanceData::from_user_data(&UserData {
        quota,
        used_quota,
        request_count: 0,
        group: group.to_string(),
    })
}

fn plain(text: &str) -> SegmentData {
    SegmentData { primary: text.to_string(), secondary: String::new(), metadata: Vec::new() }
}

#[test]
fn segments_know_their_ids() {
    assert_eq!(BalanceSegment::new().id(), SegmentId::Balance);
    assert_eq!(BrandingSegment::new().id(), SegmentId::Branding);
    assert_eq!(GroupSegment::new().id(), SegmentId::Group);
    assert_eq!(BalanceSegment::default().id(), SegmentId::Balance);
    assert_eq!(BrandingSegment::default().id(), SegmentId::Branding);
    assert_eq!(GroupSegment::default().id(), SegmentId::Group);
}

#[test]
fn a_plain_value_has_only_its_text() {
    assert_eq!(SegmentData::plain("x".to_string()), plain("x"));
}

#[test]
fn the_balance_segment_shows_the_display_text() {
    let segment = BalanceSegment::new();
    assert_eq!(segment.collect(Some(&balance(1_000_000, 250_000, ""))), Some(plain("$1.50")));
    assert_eq!(segment.collect(Some(&balance(100_000_000_000, 0, ""))), Some(plain("∞")));
    assert_eq!(segment.collect(Some(&balance(10, 11, ""))), Some(plain("超额")));
}

#[test]
fn the_balance_segment_is_left_out_without_a_balance() {
    assert_eq!(BalanceSegment::new().collect(None), None);
}

#[test]
fn the_group_segment_shows_the_group() {
    let segment = GroupSegment::new();
    assert_eq!(segment.collect(Some(&balance(10, 1, "vip"))), Some(plain("vip")));
    assert_eq!(segment.collect(Some(&balance(10, 1, "团队"))), Some(plain("团队")));
    assert_eq!(segment.collect(Some(&balance(10, 1, " "))), Some(plain(" ")));
}

#[test]
fn the_group_segment_is_left_out_without_a_group() {
    let segment = GroupSegment::new();
    assert_eq!(segment.collect(Some(&balance(10, 1, ""))), None);
    assert_eq!(segment.collect(None), None);
}

#[test]
fn the_brand_is_shown_with_the_key() {
    assert_eq!(BRAND, "IKunCode");
    assert_eq!(BrandingSegment::new().collect(true), Some(plain("IKunCode")));
}

#[test]
fn the_brand_is_left_out_without_the_key() {
    assert_eq!(BrandingSegment::new().collect(false), None);
}

fn source(api_key: Option<&str>, fallback_token: Option<&str>) -> ConfigSource {
    ConfigSource {
        api_key: api_key.map(|k| k.to_string()),
        api_url: None,
        user_id: Some("7".to_string()),
        fallback_token: fallback_token.map(|t| t.to_string()),
        base_url: Some("https://proxy.example.com/v1".to_string()),
    }
}

#[test]
fn the_segments_look_up_with_the_dedicated_key() {
    let expected = ApiConfig {
        enabled: true,
        api_key: "sk-1".to_string(),
        api_url: "https://api.ikuncode.cc/api/user/self".to_string(),
        user_id: Some("7".to_string()),
    };
    assert_eq!(
        BalanceSegment::new().resolve_config(source(Some("sk-1"), Some("token"))),
        Some(expected.clone())
    );
    assert_eq!(
        GroupSegment::new().resolve_config(source(Some("sk-1"), None)),
        Some(expected)
    );
}

#[test]
fn the_segments_make_no_lookup_with_the_general_token_alone() {
    assert_eq!(BalanceSegment::new().resolve_config(source(None, Some("token"))), None);
    assert_eq!(GroupSegment::new().resolve_config(source(None, Some("token"))), None);
    assert_eq!(BalanceSegment::new().resolve_config(source(None, None)), None);
    assert_eq!(GroupSegment::new().resolve_config(source(None, None)), None);
}
