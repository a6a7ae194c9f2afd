use rpc_gui::presence::{
    activity_plan, check_button, shown_text, ActivityPlan, AssetsPlan, ButtonCheck, ButtonPlan,
    RpcPayloadData,
};

fn some(s: &str) -> Option<String> {
    Some(s.to_string())
}

#[test]
fn empty_payload_publishes_nothing() {
    let plan = activity_plan(&RpcPayloadData::empty(), true, true);
    assert_eq!(plan, ActivityPlan { state: None, details: None, assets: None, buttons: None });
}

#[test]
fn full_payload_publishes_everything_wanted() {
    let data = RpcPayloadData {
        state_value: some("Playing"),
        details_value: some("Level 3"),
        small_image_key: some("small"),
        small_image_text: None,
        large_image_key: None,
        large_image_text: some("big text"),
        button_a_text: some("Site"),
        button_a_url: some("https://example.com"),
        button_b_text: some("Docs"),
        button_b_url: some("https://docs.example.com"),
    };
    let plan = activity_plan(&data, true, false);
    assert_eq!(
        plan,
        ActivityPlan {
            state: some("Playing"),
            details: some("Level 3"),
            assets: Some(AssetsPlan {
                large_image: None,
                large_text: some("big text"),
                small_image: some("small"),
                small_text: None,
            }),
            buttons: Some(vec![ButtonPlan {
                label: "Site".to_string(),
                url: "https://example.com".to_string()
            }]),
        }
    );
    let both = activity_plan(&data, true, true);
    assert_eq!(both.buttons.as_ref().map(|b| b.len()), Some(2));
    assert_eq!(both.buttons.unwrap()[1].label, "Docs");
    assert_eq!(activity_plan(&data, false, false).buttons, None);
}

#[test]
fn a_button_without_link_is_left_out() {
    let mut data = RpcPayloadData::empty();
    data.button_b_text = some("Docs");
    assert_eq!(activity_plan(&data, true, true).buttons, None);
}

#[test]
fn button_checks() {
    assert_eq!(check_button(&None, &some("https://example.com")), ButtonCheck::Incomplete);
    assert_eq!(check_button(&some("Site"), &None), ButtonCheck::Incomplete);
    assert_eq!(check_button(&some("S"), &some("https://example.com")), ButtonCheck::TooShort);
    assert_eq!(check_button(&some("Site"), &some("h")), ButtonCheck::TooShort);
    // one character, two bytes: long enough
    assert_eq!(check_button(&some("é"), &some("https://example.com")), ButtonCheck::Valid);
    assert_eq!(check_button(&some("Site"), &some("not a url")), ButtonCheck::BadUrl);
    assert_eq!(check_button(&some("Site"), &some("https://example.com")), ButtonCheck::Valid);
    assert_eq!(check_button(&some("Site"), &some("mailto:a@b.c")), ButtonCheck::Valid);
}

#[test]
fn shown_text_of_fields() {
    assert_eq!(shown_text(&some("abc")), "abc");
    assert_eq!(shown_text(&None), "");
}

#[test]
fn duplicate_keeps_every_field() {
    let mut data = RpcPayloadData::empty();
    data.state_value = some("s");
    data.button_b_url = some("u");
    assert_eq!(data.duplicate(), data);
}
