use release_channels::channel::Channel;
use release_channels::endpoint::{
    build_endpoint, channel_query, endpoint_from_parsed, endpoint_template, APP_SLUG, ORG_SLUG,
};
use release_channels::error::CommandError;
use release_channels::fetch::begin_fetch;
use release_channels::store::AppChannel;

const BASE: &str =
    "https://cdn.cntest.me/update/testnew/release-channels-demo/{{target}}-{{arch}}/{{current_version}}";
const PARSED_BASE: &str =
    "https://cdn.cntest.me/update/testnew/release-channels-demo/%7B%7Btarget%7D%7D-%7B%7Barch%7D%7D/%7B%7Bcurrent_version%7D%7D";

#[test]
fn slugs_name_the_organization_and_the_application() {
    assert_eq!(ORG_SLUG, "testnew");
    assert_eq!(APP_SLUG, "release-channels-demo");
}

#[test]
fn query_is_empty_for_stable_only() {
    assert_eq!(channel_query(Channel::Stable), "");
    assert_eq!(channel_query(Channel::Beta), "?channel=beta");
    assert_eq!(channel_query(Channel::Nightly), "?channel=nightly");
}

#[test]
fn template_holds_the_three_placeholders() {
    assert_eq!(endpoint_template(Channel::Stable), BASE);
    assert_eq!(endpoint_template(Channel::Beta), format!("{BASE}?channel=beta"));
    assert_eq!(
        endpoint_template(Channel::Nightly),
        format!("{BASE}?channel=nightly")
    );
}

#[test]
fn stable_endpoint_has_no_channel_parameter() {
    let endpoint = build_endpoint(Channel::Stable).unwrap();
    assert!(!endpoint.as_str().contains("channel="));
    assert!(!endpoint.as_str().contains('?'));
    assert_eq!(endpoint.as_str(), PARSED_BASE);
    assert_eq!(url::Url::parse(endpoint.as_str()).unwrap().query(), None);
}

#[test]
fn beta_and_nightly_endpoints_name_their_channel() {
    let beta = build_endpoint(Channel::Beta).unwrap();
    assert_eq!(beta.as_str(), format!("{PARSED_BASE}?channel=beta"));
    assert_eq!(
        url::Url::parse(beta.as_str()).unwrap().query(),
        Some("channel=beta")
    );
    let nightly = build_endpoint(Channel::Nightly).unwrap();
    assert_eq!(nightly.as_str(), format!("{PARSED_BASE}?channel=nightly"));
    assert_eq!(
        url::Url::parse(nightly.as_str()).unwrap().query(),
        Some("channel=nightly")
    );
}

#[test]
fn endpoint_is_the_parsers_form_of_the_template() {
    for channel in [Channel::Stable, Channel::Beta, Channel::Nightly] {
        let template = endpoint_template(channel);
        let endpoint = build_endpoint(channel).unwrap();
        assert_ne!(endpoint.as_str(), template);
        assert_eq!(
            endpoint.as_str(),
            url::Url::parse(&template).unwrap().as_str()
        );
    }
}

#[test]
fn endpoint_keeps_the_placeholders_for_the_update_service() {
    let endpoint = build_endpoint(Channel::Nightly).unwrap();
    for placeholder in [
        "%7B%7Btarget%7D%7D",
        "%7B%7Barch%7D%7D",
        "%7B%7Bcurrent_version%7D%7D",
    ] {
        assert!(endpoint.as_str().contains(placeholder), "{placeholder}");
    }
}

#[test]
fn refused_template_is_a_url_failure() {
    let refusal = url::Url::parse("https://").unwrap_err();
    match endpoint_from_parsed(Err(refusal)) {
        Err(CommandError::Url(kept)) => assert_eq!(kept, url::ParseError::EmptyHost),
        other => panic!("{other:?}"),
    }
    let failure = endpoint_from_parsed(Err(url::ParseError::RelativeUrlWithoutBase)).unwrap_err();
    assert_eq!(failure.message(), "relative URL without a base");
}

#[test]
fn accepted_url_becomes_the_endpoint() {
    let endpoint = endpoint_from_parsed(Ok("https://example.net/".to_string())).unwrap();
    assert_eq!(endpoint.as_str(), "https://example.net/");
}

#[test]
fn begin_fetch_asks_for_the_selected_channel() {
    let mut selected = AppChannel::load(None);
    assert_eq!(begin_fetch(&selected).unwrap().as_str(), PARSED_BASE);
    selected.update(Channel::Beta);
    assert_eq!(
        begin_fetch(&selected).unwrap().as_str(),
        format!("{PARSED_BASE}?channel=beta")
    );
    selected.update(Channel::Nightly);
    assert_eq!(
        begin_fetch(&selected).unwrap().as_str(),
        format!("{PARSED_BASE}?channel=nightly")
    );
}
