use lemmy_federation::error::FederationError;
use lemmy_federation::policy::{Instance, LocalSite, LocalSiteData};
use lemmy_federation::validator::{
    any_domain_matches, check_apub_id_valid, check_apub_id_valid_with_strictness,
    check_domain_valid, check_domain_valid_with_strictness, decide_domain, decide_strict,
    is_local, refusal_text, refusal_text_with, VerifyUrlData,
};

fn instances(domains: &[&str]) -> Vec<Instance> {
    domains.iter().map(|d| Instance { domain: d.to_string() }).collect()
}

fn policy(enabled: bool, allowed: &[&str], blocked: &[&str]) -> LocalSiteData {
    LocalSiteData::new(
        Some(LocalSite { federation_enabled: enabled }),
        instances(allowed),
        instances(blocked),
    )
}

#[test]
fn blocked_domain_is_refused_in_any_case() {
    let data = policy(true, &[], &["Evil.Example"]);
    let r = check_apub_id_valid("https://EVIL.example/u/bob", &data);
    assert!(matches!(r, Err(FederationError::DomainBlocked(ref d)) if d == "evil.example"));
    let r = check_apub_id_valid_with_strictness(
        "https://evil.EXAMPLE/c/x",
        true,
        "home.example",
        &data,
    );
    assert!(matches!(r, Err(FederationError::DomainBlocked(ref d)) if d == "evil.example"));
    let r = check_domain_valid(Some("eViL.eXaMpLe"), &data);
    assert!(matches!(r, Err(FederationError::DomainBlocked(ref d)) if d == "eViL.eXaMpLe"));
}

#[test]
fn url_without_domain_is_refused_first() {
    let data = policy(false, &["a.example"], &["b.example"]);
    assert!(matches!(
        check_apub_id_valid("not a url", &data),
        Err(FederationError::UrlWithoutDomain)
    ));
    assert!(matches!(
        check_apub_id_valid("https://127.0.0.1/inbox", &data),
        Err(FederationError::UrlWithoutDomain)
    ));
    assert!(matches!(
        check_apub_id_valid("mailto:someone@a.example", &data),
        Err(FederationError::UrlWithoutDomain)
    ));
    assert!(matches!(
        check_apub_id_valid_with_strictness("data:text/plain,hi", false, "home.example", &data),
        Err(FederationError::UrlWithoutDomain)
    ));
    assert!(matches!(check_domain_valid(None, &data), Err(FederationError::UrlWithoutDomain)));
    assert!(matches!(
        check_domain_valid_with_strictness(None, true, "home.example", &data),
        Err(FederationError::UrlWithoutDomain)
    ));
}

#[test]
fn local_urls_always_validate() {
    let data = policy(false, &["other.example"], &["home.example"]);
    for strict in [false, true] {
        assert!(check_apub_id_valid_with_strictness(
            "https://home.example/c/main",
            strict,
            "home.example",
            &data
        )
        .is_ok());
    }
    // without the local exemption the lists decide
    assert!(matches!(
        check_apub_id_valid("https://home.example/c/main", &data),
        Err(FederationError::FederationDisabled)
    ));
}

#[test]
fn federation_disabled_refuses_every_remote_url() {
    let data = policy(false, &[], &[]);
    for url in ["https://a.example/u/1", "http://b.example/c/2", "https://sub.c.example/post/3"] {
        assert!(matches!(
            check_apub_id_valid_with_strictness(url, false, "home.example", &data),
            Err(FederationError::FederationDisabled)
        ));
        assert!(matches!(
            check_apub_id_valid(url, &data),
            Err(FederationError::FederationDisabled)
        ));
    }
}

#[test]
fn missing_site_settings_mean_federation_is_on() {
    let data = LocalSiteData::new(None, vec![], vec![]);
    assert!(data.federation_enabled());
    assert!(check_apub_id_valid("https://a.example/u/1", &data).is_ok());
}

#[test]
fn disabled_comes_before_blocked_and_blocked_before_allow_list() {
    let data = policy(false, &["good.example"], &["bad.example"]);
    assert!(matches!(
        check_apub_id_valid("https://bad.example/", &data),
        Err(FederationError::FederationDisabled)
    ));
    let data = policy(true, &["good.example"], &["bad.example"]);
    assert!(matches!(
        check_apub_id_valid("https://bad.example/", &data),
        Err(FederationError::DomainBlocked(ref d)) if d == "bad.example"
    ));
    // on both lists: the block list wins
    let data = policy(true, &["both.example"], &["both.example"]);
    assert!(matches!(
        check_apub_id_valid("https://both.example/", &data),
        Err(FederationError::DomainBlocked(_))
    ));
}

#[test]
fn allow_list_refuses_what_is_not_on_it() {
    let data = policy(true, &["Good.Example", "fine.example"], &[]);
    assert!(check_apub_id_valid("https://good.example/u/1", &data).is_ok());
    assert!(check_apub_id_valid("https://FINE.example/u/1", &data).is_ok());
    let r = check_apub_id_valid("https://other.example/u/1", &data);
    assert!(matches!(r, Err(FederationError::DomainNotInAllowList(ref d)) if d == "other.example"));
    let r = check_apub_id_valid_with_strictness(
        "https://other.example/u/1",
        false,
        "home.example",
        &data,
    );
    assert!(matches!(r, Err(FederationError::DomainNotInAllowList(ref d)) if d == "other.example"));
}

#[test]
fn empty_allow_list_allows_everything_not_blocked() {
    let data = policy(true, &[], &["bad.example"]);
    assert!(check_apub_id_valid("https://anything.example/x", &data).is_ok());
    assert!(check_apub_id_valid_with_strictness(
        "https://anything.example/x",
        true,
        "home.example",
        &data
    )
    .is_ok());
}

#[test]
fn strict_check_looks_the_allow_list_up_without_regard_to_case() {
    let data = policy(true, &["A.Example", "fine.example"], &[]);
    for strict in [false, true] {
        assert!(check_apub_id_valid_with_strictness(
            "https://a.example/community/3",
            strict,
            "b.example",
            &data
        )
        .is_ok());
        assert!(check_apub_id_valid_with_strictness(
            "https://FINE.example/c/a",
            strict,
            "b.example",
            &data
        )
        .is_ok());
        assert!(check_domain_valid_with_strictness(Some("A.EXAMPLE"), strict, "b.example", &data)
            .is_ok());
        // what the allow list does not hold is refused by the allow list, strict or not
        assert!(matches!(
            check_apub_id_valid_with_strictness("https://c.example/c/a", strict, "b.example", &data),
            Err(FederationError::DomainNotInAllowList(ref d)) if d == "c.example"
        ));
    }
}

#[test]
fn local_host_is_recognised_in_any_case() {
    let off = policy(false, &[], &[]);
    assert!(check_apub_id_valid_with_strictness(
        "https://lemmy.local/u/alice",
        false,
        "Lemmy.Local",
        &off
    )
    .is_ok());
    let hostile = policy(false, &["other.example"], &["LEMMY.local"]);
    for strict in [false, true] {
        assert!(check_apub_id_valid_with_strictness(
            "https://lemmy.local/u/alice",
            strict,
            "Lemmy.Local",
            &hostile
        )
        .is_ok());
        assert!(check_domain_valid_with_strictness(Some("LEMMY.LOCAL"), strict, "lemmy.local", &hostile)
            .is_ok());
    }
    assert!(is_local("lemmy.local", "Lemmy.Local"));
    assert!(is_local("Lemmy.Local", "lemmy.local"));
    assert!(!is_local("lemmy.local", "lemmy.locale"));
    assert!(!is_local("", "lemmy.local"));
}

#[test]
fn list_lookups() {
    let list = instances(&["A.example", "b.example"]);
    assert!(any_domain_matches(&list, "a.EXAMPLE"));
    assert!(!any_domain_matches(&list, "c.example"));
    assert!(!any_domain_matches(&vec![], "a.example"));
    assert!(any_domain_matches(&list, "B.example"));
}

#[test]
fn refusals_are_worded_for_the_transport_layer() {
    assert_eq!(refusal_text(&FederationError::FederationDisabled), "Federation disabled");
    assert_eq!(
        refusal_text(&FederationError::DomainBlocked("bad.example".to_string())),
        "Domain \"bad.example\" is blocked"
    );
    assert_eq!(
        refusal_text(&FederationError::DomainNotInAllowList("x\"y".to_string())),
        "Domain \"x\\\"y\" is not in allowlist"
    );
    assert_eq!(
        refusal_text(&FederationError::UrlWithoutDomain),
        "Failed validating apub id"
    );
    assert_eq!(
        refusal_text(&FederationError::FetchLimitExceeded),
        "Failed validating apub id"
    );
}

fn url_check(data: LocalSiteData, local_instance: &str) -> VerifyUrlData {
    VerifyUrlData { local_site_data: data, local_instance: local_instance.to_string() }
}

#[test]
fn url_verifier_reports_the_refusal() {
    let v = url_check(policy(true, &["good.example"], &["bad.example"]), "home.example");
    assert_eq!(v.verify("https://good.example/u/1"), Ok(()));
    assert_eq!(
        v.verify("https://bad.example/u/1"),
        Err("Domain \"bad.example\" is blocked".to_string())
    );
    assert_eq!(
        v.verify("https://else.example/u/1"),
        Err("Domain \"else.example\" is not in allowlist".to_string())
    );
    assert_eq!(v.verify("no url"), Err("Failed validating apub id".to_string()));
    let off = url_check(policy(false, &[], &[]), "home.example");
    assert_eq!(off.verify("https://good.example/u/1"), Err("Federation disabled".to_string()));
}

#[test]
fn url_verifier_lets_local_urls_pass_whatever_the_policy() {
    let off = url_check(policy(false, &[], &[]), "home.example");
    assert_eq!(off.verify("https://home.example/u/1"), Ok(()));
    let blocked = url_check(policy(true, &["good.example"], &["home.example"]), "Home.Example");
    assert_eq!(blocked.verify("https://home.example/c/main"), Ok(()));
    assert_eq!(blocked.verify("https://HOME.example/c/main"), Ok(()));
    let outside = url_check(policy(true, &["good.example"], &[]), "home.example");
    assert_eq!(outside.verify("https://home.example/post/4"), Ok(()));
    assert_eq!(outside.verify("no url"), Err("Failed validating apub id".to_string()));
}

#[test]
fn decisions_follow_the_order_of_the_rules() {
    assert!(matches!(decide_domain(None, true, false, false, false), Err(FederationError::UrlWithoutDomain)));
    assert!(matches!(decide_domain(None, false, true, true, false), Err(FederationError::UrlWithoutDomain)));
    assert!(matches!(decide_domain(Some("d"), false, true, true, false), Err(FederationError::FederationDisabled)));
    assert!(matches!(decide_domain(Some("d"), true, true, true, false), Err(FederationError::DomainBlocked(ref x)) if x == "d"));
    assert!(matches!(decide_domain(Some("d"), true, true, true, true), Err(FederationError::DomainBlocked(_))));
    assert!(matches!(decide_domain(Some("d"), true, false, true, false), Err(FederationError::DomainNotInAllowList(ref x)) if x == "d"));
    assert!(decide_domain(Some("d"), true, false, true, true).is_ok());
    assert!(decide_domain(Some("d"), true, false, false, false).is_ok());

    assert!(matches!(decide_strict(None, true, Ok(()), false, true), Err(FederationError::UrlWithoutDomain)));
    assert!(decide_strict(Some("d"), true, Err(FederationError::FederationDisabled), true, false).is_ok());
    assert!(matches!(
        decide_strict(Some("d"), false, Err(FederationError::FederationDisabled), true, false),
        Err(FederationError::FederationDisabled)
    ));
    // the strict refusal comes only where the domain is neither allowed nor local
    assert!(matches!(
        decide_strict(Some("d"), false, Ok(()), true, false),
        Err(FederationError::FederationDisabledByStrictAllowList)
    ));
    assert!(decide_strict(Some("d"), false, Ok(()), true, true).is_ok());
    assert!(decide_strict(Some("d"), false, Ok(()), false, false).is_ok());
}

#[test]
fn refusal_shows_the_domain_as_given() {
    let blocked = FederationError::DomainBlocked("bad.example".to_string());
    assert_eq!(refusal_text_with(&blocked, "<bad>"), "Domain <bad> is blocked");
    let outside = FederationError::DomainNotInAllowList("x".to_string());
    assert_eq!(refusal_text_with(&outside, "'x'"), "Domain 'x' is not in allowlist");
    assert_eq!(refusal_text_with(&FederationError::FederationDisabled, "d"), "Federation disabled");
    assert_eq!(refusal_text_with(&FederationError::UnhandledActivityType, "d"), "Failed validating apub id");
}

#[test]
fn only_logged_and_recorded_failures_stay_put() {
    assert!(!FederationError::UnhandledActivityType.escalates());
    assert!(!FederationError::DeliveryFailed("https://a.example/inbox".to_string(), 3).escalates());
    assert!(FederationError::UrlWithoutDomain.escalates());
    assert!(FederationError::FederationDisabled.escalates());
    assert!(FederationError::DomainBlocked("d".to_string()).escalates());
    assert!(FederationError::DomainNotInAllowList("d".to_string()).escalates());
    assert!(FederationError::FederationDisabledByStrictAllowList.escalates());
    assert!(FederationError::FetchLimitExceeded.escalates());
    assert!(FederationError::VerificationFailed("r".to_string()).escalates());
}
