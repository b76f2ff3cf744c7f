use orchestrator::github::{AssetPoller, PollVerdict, ReleaseAsset};

fn asset(name: &str, size: u64) -> ReleaseAsset {
    ReleaseAsset { name: name.to_string(), size }
}

fn expected(names: &[&str]) -> Vec<String> {
    names.iter().map(|n| n.to_string()).collect()
}

#[test]
fn fresh_poller_reports_everything_pending() {
    let p = AssetPoller::new(expected(&["a", "b"]));
    assert_eq!(p.pending, vec!["a".to_string(), "b".to_string()]);
    assert_eq!(p.stable_count, 0);
    assert!(p.last.is_none());
}

#[test]
fn ready_exactly_on_second_identical_full_observation() {
    let mut p = AssetPoller::new(expected(&["a"]));
    let v1 = p.observe(Some(vec![asset("a", 50)]));
    assert_eq!(v1, PollVerdict::Waiting);
    let v2 = p.observe(Some(vec![asset("a", 100)]));
    assert_eq!(v2, PollVerdict::Waiting);
    let v3 = p.observe(Some(vec![asset("a", 100)]));
    assert_eq!(v3, PollVerdict::Ready);
}

#[test]
fn absent_release_changes_nothing() {
    let mut p = AssetPoller::new(expected(&["a"]));
    let _ = p.observe(Some(vec![asset("a", 50)]));
    let v = p.observe(None);
    assert_eq!(v, PollVerdict::Waiting);
    assert_eq!(p.stable_count, 0);
    // The baseline survives an absent tick: the next identical
    // observation is ready.
    let v = p.observe(Some(vec![asset("a", 50)]));
    assert_eq!(v, PollVerdict::Ready);
}

#[test]
fn missing_asset_resets_stability_and_is_reported() {
    let mut p = AssetPoller::new(expected(&["a", "b"]));
    let v = p.observe(Some(vec![asset("a", 50)]));
    assert_eq!(v, PollVerdict::Waiting);
    assert_eq!(p.pending, vec!["b".to_string()]);
    // Present but zero-sized counts as missing.
    let v = p.observe(Some(vec![asset("a", 50), asset("b", 0)]));
    assert_eq!(v, PollVerdict::Waiting);
    assert_eq!(p.pending, vec!["b".to_string()]);
}

#[test]
fn unstable_assets_are_enumerated_exactly() {
    let mut p = AssetPoller::new(expected(&["a", "b"]));
    let v = p.observe(Some(vec![asset("a", 60), asset("b", 10)]));
    assert_eq!(v, PollVerdict::Waiting);
    // No baseline yet: everything is unconfirmed.
    assert_eq!(p.pending, vec!["a".to_string(), "b".to_string()]);
    // One asset grew: only it is unstable at this tick.
    let v = p.observe(Some(vec![asset("a", 70), asset("b", 10)]));
    assert_eq!(v, PollVerdict::Waiting);
    assert_eq!(p.pending, vec!["a".to_string()]);
    let v = p.observe(Some(vec![asset("a", 70), asset("b", 10)]));
    assert_eq!(v, PollVerdict::Ready);
}

#[test]
fn listing_order_does_not_matter_for_stability() {
    let mut p = AssetPoller::new(expected(&["a", "b"]));
    let _ = p.observe(Some(vec![asset("a", 1), asset("b", 2)]));
    let v = p.observe(Some(vec![asset("b", 2), asset("a", 1)]));
    assert_eq!(v, PollVerdict::Ready);
}

#[test]
fn extra_assets_participate_in_the_size_map() {
    let mut p = AssetPoller::new(expected(&["a"]));
    let _ = p.observe(Some(vec![asset("a", 1), asset("extra", 5)]));
    // The extra asset's growth keeps the map unstable.
    let v = p.observe(Some(vec![asset("a", 1), asset("extra", 9)]));
    assert_eq!(v, PollVerdict::Waiting);
    let v = p.observe(Some(vec![asset("a", 1), asset("extra", 9)]));
    assert_eq!(v, PollVerdict::Ready);
}

#[test]
fn duplicate_asset_names_resolve_to_the_last_listing() {
    let mut p = AssetPoller::new(expected(&["a"]));
    // The later entry of a duplicated name wins, as in a map insert.
    let _ = p.observe(Some(vec![asset("a", 0), asset("a", 7)]));
    let v = p.observe(Some(vec![asset("a", 7)]));
    assert_eq!(v, PollVerdict::Ready);
}
