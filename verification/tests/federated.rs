use lemmy_federation::federated::{
    build_federated_instances, insert_sorted, link_instances, FederationConfig,
};
use lemmy_federation::text::{compare_texts, contains_text, eq_ignore_case, str_eq, TextOrder};
use lemmy_federation::utils::ApiError;

fn strings(items: &[&str]) -> Vec<String> {
    items.iter().map(|s| s.to_string()).collect()
}

fn config(enabled: bool, allowed: Option<&[&str]>, blocked: Option<&[&str]>) -> FederationConfig {
    FederationConfig {
        enabled,
        allowed_instances: allowed.map(strings),
        blocked_instances: blocked.map(strings),
    }
}

#[test]
fn federation_off_gives_no_list() {
    let r = build_federated_instances(&strings(&["not a url"]), config(false, None, None), "home.example");
    assert!(matches!(r, Ok(None)));
}

#[test]
fn linked_instances_are_sorted_and_unique() {
    let communities = strings(&[
        "https://zeta.example/c/a",
        "https://alpha.example/c/b",
        "https://zeta.example/c/c",
        "https://home.example/c/main",
        "https://Mid.Example:8536/c/d",
    ]);
    let r = build_federated_instances(&communities, config(true, Some(&["beta.example", "alpha.example"]), None), "home.example")
        .ok()
        .unwrap()
        .unwrap();
    assert_eq!(r.linked, strings(&["alpha.example", "beta.example", "home.example", "mid.example", "zeta.example"]));
    assert_eq!(r.allowed, Some(strings(&["beta.example", "alpha.example"])));
    assert_eq!(r.blocked, None);
}

#[test]
fn block_list_takes_off_blocked_instances_and_this_one() {
    let communities = strings(&["https://zeta.example/c/a", "https://bad.example/c/b", "https://home.example/c/main"]);
    let r = build_federated_instances(&communities, config(true, Some(&["bad.example", "good.example"]), Some(&["bad.example"])), "home.example")
        .ok()
        .unwrap()
        .unwrap();
    assert_eq!(r.linked, strings(&["good.example", "zeta.example"]));
    assert_eq!(r.blocked, Some(strings(&["bad.example"])));
    // an empty block list still takes this instance off
    let r = build_federated_instances(&communities, config(true, None, Some(&[])), "home.example").ok().unwrap().unwrap();
    assert_eq!(r.linked, strings(&["bad.example", "zeta.example"]));
}

#[test]
fn an_id_that_is_no_url_fails_the_call() {
    let communities = strings(&["https://zeta.example/c/a", "zeta.example/c/b"]);
    let r = build_federated_instances(&communities, config(true, None, None), "home.example");
    assert!(matches!(r, Err(ApiError::Unknown)));
}

#[test]
fn an_id_without_host_is_listed_under_the_empty_name() {
    let communities = strings(&["mailto:someone@far.example", "https://far.example/c/a"]);
    let r = build_federated_instances(&communities, config(true, None, None), "home.example").ok().unwrap().unwrap();
    assert_eq!(r.linked, strings(&["", "far.example"]));
    assert!(build_federated_instances(&vec![], config(true, None, None), "home.example").ok().unwrap().unwrap().linked.is_empty());
}

#[test]
fn sorted_insert_keeps_order_and_uniqueness() {
    let mut list: Vec<String> = Vec::new();
    for s in ["m", "b", "z", "b", "a", "mm", "", "Z", "é", "m"] {
        insert_sorted(&mut list, s.to_string());
    }
    let mut expected = strings(&["m", "b", "z", "a", "mm", "", "Z", "é"]);
    expected.sort_unstable();
    assert_eq!(list, expected);
}

#[test]
fn texts_compare_as_strings_sort() {
    assert_eq!(compare_texts("a", "b"), TextOrder::Before);
    assert_eq!(compare_texts("b", "a"), TextOrder::After);
    assert_eq!(compare_texts("abc", "abc"), TextOrder::Same);
    assert_eq!(compare_texts("ab", "abc"), TextOrder::Before);
    assert_eq!(compare_texts("abc", "ab"), TextOrder::After);
    assert_eq!(compare_texts("", ""), TextOrder::Same);
    assert_eq!(compare_texts("", "a"), TextOrder::Before);
    assert_eq!(compare_texts("Z", "a"), TextOrder::Before);
    assert_eq!(compare_texts("z", "é"), TextOrder::Before);
    assert!(str_eq("héllo", "héllo"));
    assert!(!str_eq("hello", "hellO"));
    assert!(!str_eq("hello", "hell"));
    assert!(eq_ignore_case("HeLLo.Example", "hello.EXAMPLE"));
    assert!(eq_ignore_case("ÉCOLE", "école"));
    assert!(!eq_ignore_case("hello", "hallo"));
}

#[test]
fn hosts_are_linked_with_the_allowed_instances() {
    let hosts = strings(&["b.example", "a.example", "b.example", "home.example", "x.example"]);
    let r = link_instances(&hosts, config(true, Some(&["c.example", "x.example"]), Some(&["x.example"])), "home.example");
    assert_eq!(r.linked, strings(&["a.example", "b.example", "c.example"]));
    assert_eq!(r.allowed, Some(strings(&["c.example", "x.example"])));
    assert_eq!(r.blocked, Some(strings(&["x.example"])));
    let r = link_instances(&vec![], config(true, None, None), "home.example");
    assert!(r.linked.is_empty());
    assert!(contains_text(&hosts, "x.example"));
    assert!(!contains_text(&hosts, "X.example"));
    assert!(!contains_text(&vec![], ""));
}
