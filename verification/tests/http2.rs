use rquest_tls::order::{order_defect, OrderDefect};
use rquest_tls::http2::{validate_pseudo_order, validate_settings_order};
use rquest_tls::{
    BoringTlsConnector, ConfigurationError, ConnectorProgress, Header, Http2Settings,
    HttpVersionPref, ImpersonateSettings, KeepHeaders, LayerSlot, ListOption, PseudoOrder,
    SettingsOrder, StreamPriority, TlsError, TlsSettings, TrustStorePolicy,
};
use rquest_tls::PseudoOrder::{Authority, Method, Path, Scheme};
use rquest_tls::SettingsOrder::{
    EnableConnectProtocol, EnablePush, HeaderTableSize, InitialWindowSize, MaxConcurrentStreams,
    MaxFrameSize, MaxHeaderListSize,
};

fn full_settings_order() -> Vec<SettingsOrder> {
    vec![
        HeaderTableSize,
        EnablePush,
        MaxConcurrentStreams,
        InitialWindowSize,
        MaxFrameSize,
        MaxHeaderListSize,
        EnableConnectProtocol,
    ]
}

#[test]
fn complete_orders_pass() {
    let settings = Http2Settings::builder()
        .initial_stream_window_size(6291456)
        .initial_connection_window_size(15728640)
        .max_concurrent_streams(1000)
        .max_header_list_size(262144)
        .header_table_size(65536)
        .enable_push(false)
        .headers_priority(StreamPriority { weight: 255, dependency: 0, exclusive: true })
        .headers_pseudo_order(vec![Method, Scheme, Authority, Path])
        .settings_order(full_settings_order())
        .build();
    assert_eq!(settings.validate(), Ok(()));
    assert_eq!(settings.initial_stream_window_size, Some(6291456));
    assert_eq!(settings.initial_connection_window_size, Some(15728640));
    assert_eq!(settings.max_concurrent_streams, Some(1000));
    assert_eq!(settings.max_header_list_size, Some(262144));
    assert_eq!(settings.header_table_size, Some(65536));
    assert_eq!(settings.enable_push, Some(false));
    assert_eq!(
        settings.headers_priority,
        Some(StreamPriority { weight: 255, dependency: 0, exclusive: true })
    );
}

#[test]
fn any_permutation_passes() {
    let order = vec![
        EnableConnectProtocol,
        MaxHeaderListSize,
        HeaderTableSize,
        MaxFrameSize,
        EnablePush,
        InitialWindowSize,
        MaxConcurrentStreams,
    ];
    assert_eq!(validate_settings_order(&order), Ok(()));
    assert_eq!(validate_pseudo_order(&vec![Path, Authority, Scheme, Method]), Ok(()));
}

#[test]
fn unset_orders_pass() {
    assert_eq!(Http2Settings::default().validate(), Ok(()));
    assert_eq!(Http2Settings::builder().build(), Http2Settings::default());
}

#[test]
fn settings_order_missing_a_parameter_fails_validation() {
    let mut order = full_settings_order();
    order.remove(4);
    let settings = Http2Settings::builder().settings_order(order).build();
    assert_eq!(settings.validate(), Err(ConfigurationError::MissingSetting(MaxFrameSize)));
}

#[test]
fn profile_with_defective_order_fails_before_any_call() {
    let mut order = full_settings_order();
    order.pop();
    let profile = ImpersonateSettings::new(
        TlsSettings::default(),
        Http2Settings::builder().settings_order(order).build(),
        KeepHeaders,
    );
    let progress = profile.connector(TrustStorePolicy::NoOverride);
    assert_eq!(
        progress,
        ConnectorProgress::Failed(TlsError::Configuration(ConfigurationError::MissingSetting(
            EnableConnectProtocol
        )))
    );
}

#[test]
fn profile_with_valid_orders_starts_construction() {
    let tls = TlsSettings::builder().http_version_pref(HttpVersionPref::Http2).build();
    let profile = ImpersonateSettings::new(
        tls.snapshot(),
        Http2Settings::builder().settings_order(full_settings_order()).build(),
        KeepHeaders,
    );
    match profile.connector(TrustStorePolicy::NativeOnly) {
        ConnectorProgress::Pending(build) => {
            assert_eq!(*build.settings, tls);
            assert_eq!(build.policy, TrustStorePolicy::NativeOnly);
            assert_eq!(build.slot, LayerSlot::Main);
            assert_eq!(build.stage, 0);
        }
        other => panic!("no call is due: {:?}", other),
    }
    assert_eq!(
        profile.connector(TrustStorePolicy::NativeOnly),
        BoringTlsConnector::new(tls, TrustStorePolicy::NativeOnly)
    );
}

#[test]
fn profile_with_malformed_list_fails() {
    let profile = ImpersonateSettings::new(
        TlsSettings::builder().cipher_list(String::from("\0")).build(),
        Http2Settings::default(),
        KeepHeaders,
    );
    assert_eq!(
        profile.connector(TrustStorePolicy::NoOverride),
        ConnectorProgress::Failed(TlsError::Configuration(ConfigurationError::MalformedList(
            ListOption::Ciphers
        )))
    );
}

#[test]
fn duplicate_is_reported_before_omission() {
    let order = vec![HeaderTableSize, EnablePush, EnablePush, HeaderTableSize];
    assert_eq!(
        validate_settings_order(&order),
        Err(ConfigurationError::DuplicateSetting(EnablePush))
    );
    assert_eq!(order_defect(&order), Some(OrderDefect::Duplicate(EnablePush)));
}

#[test]
fn duplicate_in_an_otherwise_complete_order_is_rejected() {
    let mut order = full_settings_order();
    order.push(InitialWindowSize);
    assert_eq!(
        validate_settings_order(&order),
        Err(ConfigurationError::DuplicateSetting(InitialWindowSize))
    );
}

#[test]
fn first_missing_member_is_reported() {
    assert_eq!(
        validate_settings_order(&Vec::new()),
        Err(ConfigurationError::MissingSetting(HeaderTableSize))
    );
    assert_eq!(
        validate_settings_order(&vec![MaxFrameSize, HeaderTableSize, EnablePush]),
        Err(ConfigurationError::MissingSetting(MaxConcurrentStreams))
    );
    assert_eq!(order_defect::<PseudoOrder>(&Vec::new()), Some(OrderDefect::Missing(Method)));
}

#[test]
fn pseudo_order_defects() {
    assert_eq!(
        validate_pseudo_order(&vec![Method, Scheme, Authority]),
        Err(ConfigurationError::MissingPseudoHeader(Path))
    );
    assert_eq!(
        validate_pseudo_order(&vec![Method, Scheme, Method, Path]),
        Err(ConfigurationError::DuplicatePseudoHeader(Method))
    );
    assert_eq!(
        validate_pseudo_order(&vec![Path, Path, Path, Path]),
        Err(ConfigurationError::DuplicatePseudoHeader(Path))
    );
}

#[test]
fn settings_order_is_checked_before_pseudo_order() {
    let settings = Http2Settings::builder()
        .headers_pseudo_order(vec![Method, Method])
        .settings_order(vec![EnablePush])
        .build();
    assert_eq!(settings.validate(), Err(ConfigurationError::MissingSetting(HeaderTableSize)));
    let settings = Http2Settings::builder()
        .headers_pseudo_order(vec![Method, Method])
        .settings_order(full_settings_order())
        .build();
    assert_eq!(settings.validate(), Err(ConfigurationError::DuplicatePseudoHeader(Method)));
}

#[test]
fn keep_headers_leaves_headers_unchanged() {
    let profile =
        ImpersonateSettings::new(TlsSettings::default(), Http2Settings::default(), KeepHeaders);
    let headers = vec![
        Header { name: String::from("user-agent"), value: String::from("rquest") },
        Header { name: String::from("accept"), value: String::from("*/*") },
    ];
    assert_eq!(profile.apply_headers(headers.clone()), headers);
    assert_eq!(profile.apply_headers(Vec::new()), Vec::new());
}
