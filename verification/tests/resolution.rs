use npc_imager::entity::DataEntry;
use npc_imager::resolve::apply_resolution;
use npc_imager::resolve::chathead_url;
use npc_imager::resolve::classify_direct_response;
use npc_imager::resolve::page_url;
use npc_imager::resolve::Attempt;
use npc_imager::resolve::ResolveState;

fn zulrah() -> DataEntry {
    DataEntry {
        name: "Zulrah (serpentine)".to_string(),
        gender: "Unknown".to_string(),
        race: "Snake".to_string(),
        region: "Zanaris".to_string(),
        combat_level: 725,
        release_date: 20150610,
        image: String::new(),
    }
}

#[test]
fn chathead_url_is_asset_base_plus_token() {
    assert_eq!(
        chathead_url("Zulrah (serpentine)"),
        "https://oldschool.runescape.wiki/images/Zulrah_%28serpentine%29_chathead.png"
    );
}

#[test]
fn page_url_is_page_base_plus_token() {
    assert_eq!(
        page_url("Zulrah (serpentine)"),
        "https://oldschool.runescape.wiki/Zulrah_%28serpentine%29"
    );
}

#[test]
fn success_statuses_yield_the_probed_url() {
    for status in [200u16, 201, 204, 299] {
        let got = classify_direct_response("u".to_string(), status);
        assert_eq!(got, Attempt::Found("u".to_string()));
    }
}

#[test]
fn non_success_statuses_are_not_found() {
    for status in [100u16, 199, 300, 302, 404, 500, 503] {
        let got = classify_direct_response("u".to_string(), status);
        assert_eq!(got, Attempt::NotFound);
    }
}

#[test]
fn direct_success_finishes_without_scrape() {
    let st = ResolveState::start();
    assert_eq!(
        st.pending_url("Zulrah (serpentine)"),
        Some(chathead_url("Zulrah (serpentine)"))
    );
    let st = st.step(Attempt::Found("direct".to_string()));
    assert_eq!(st, ResolveState::Resolved("direct".to_string()));
    assert_eq!(st.pending_url("Zulrah (serpentine)"), None);
}

#[test]
fn direct_miss_falls_back_to_scrape_url() {
    let st = ResolveState::start().step(Attempt::NotFound);
    assert_eq!(st, ResolveState::AwaitingScrape);
    assert_eq!(st.pending_url("Cow"), Some(page_url("Cow")));
    let st = st.step(Attempt::Found("scraped".to_string()));
    assert_eq!(st, ResolveState::Resolved("scraped".to_string()));
}

#[test]
fn direct_hard_error_also_falls_back() {
    let st = ResolveState::start().step(Attempt::HardError);
    assert_eq!(st, ResolveState::AwaitingScrape);
}

#[test]
fn both_misses_end_unresolved() {
    let st = ResolveState::start()
        .step(Attempt::NotFound)
        .step(Attempt::NotFound);
    assert_eq!(st, ResolveState::Unresolved);
    assert_eq!(st.pending_url("Cow"), None);
}

#[test]
fn miss_then_hard_error_ends_unresolved() {
    let st = ResolveState::start()
        .step(Attempt::HardError)
        .step(Attempt::HardError);
    assert_eq!(st, ResolveState::Unresolved);
}

#[test]
fn terminal_state_never_changes() {
    let st = ResolveState::Resolved("keep".to_string()).step(Attempt::Found("other".to_string()));
    assert_eq!(st, ResolveState::Resolved("keep".to_string()));
    let st = ResolveState::Unresolved.step(Attempt::Found("late".to_string()));
    assert_eq!(st, ResolveState::Unresolved);
}

#[test]
fn applying_resolved_sets_only_image() {
    let mut e = zulrah();
    let st = ResolveState::Resolved("https://example.invalid/img.png".to_string());
    apply_resolution(&mut e, &st);
    assert_eq!(e.image, "https://example.invalid/img.png");
    let fresh = zulrah();
    assert_eq!(e.name, fresh.name);
    assert_eq!(e.gender, fresh.gender);
    assert_eq!(e.race, fresh.race);
    assert_eq!(e.region, fresh.region);
    assert_eq!(e.combat_level, fresh.combat_level);
    assert_eq!(e.release_date, fresh.release_date);
}

#[test]
fn applying_unresolved_changes_nothing() {
    let mut e = zulrah();
    apply_resolution(&mut e, &ResolveState::Unresolved);
    assert_eq!(e, zulrah());
    assert_eq!(e.image, "");
}
