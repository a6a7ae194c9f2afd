use rpc_gui::editor::{
    button_note, disconnect_note, startup_bs, Action, AppState, ButtonSlot, Message,
};
use rpc_gui::presence::{ButtonCheck, ButtonPlan, RpcPayloadData};
use rpc_gui::styles::Rgba;

fn notes(actions: &[Action]) -> Vec<&str> {
    actions
        .iter()
        .filter_map(|a| match a {
            Action::Notify(s) => Some(s.as_str()),
            _ => None,
        })
        .collect()
}

fn validated(id: &str) -> AppState {
    let (mut state, _) = AppState::new();
    state.update(Message::ClientIdInputChanged(id.to_string()));
    state.update(Message::ValidateClientId);
    state
}

#[test]
fn starts_with_the_built_in_client() {
    let (state, actions) = AppState::new();
    assert_eq!(actions, vec![Action::UseClient("731140044970262590".to_string())]);
    assert_eq!(state.client_id, "");
    assert_eq!(state.server_status, None);
    assert_eq!(state.data, RpcPayloadData::empty());
    assert_eq!(state.title(), "Discord-RPC-GUI");
    assert_eq!(state.background_color(), Rgba { red: 172, green: 184, blue: 200, alpha: 1000 });
    assert_eq!(startup_bs(), "Started Software!");
}

#[test]
fn validating_a_good_id() {
    let (mut state, _) = AppState::new();
    state.update(Message::ClientIdInputChanged("123456789012345678".to_string()));
    let actions = state.update(Message::ValidateClientId);
    assert_eq!(
        actions,
        vec![
            Action::UseClient("123456789012345678".to_string()),
            Action::Notify("Valid Client ID provided! You may start RPC".to_string()),
        ]
    );
    assert!(state.client_id_valid);
    assert_eq!(state.client_id_status, Some(true));
    assert_eq!(state.client_id_note().text, "Valid Application ID!");
    assert_eq!(state.client_id_note().color, Rgba { red: 0, green: 1000, blue: 0, alpha: 1000 });
}

#[test]
fn validating_a_bad_id() {
    let (mut state, _) = AppState::new();
    assert_eq!(
        state.client_id_note().text,
        "Enter Application ID from discord developer portal and click validate."
    );
    state.update(Message::ClientIdInputChanged("12345".to_string()));
    let actions = state.update(Message::ValidateClientId);
    assert_eq!(
        notes(&actions),
        vec!["InValid Client ID provided. RPC will not work untill changed and re-validated"]
    );
    assert_eq!(actions.len(), 1);
    assert!(!state.client_id_valid);
    assert_eq!(state.client_id_note().text, "Invalid Application ID. Enter and validate again");
}

#[test]
fn starting_without_an_id() {
    let (mut state, _) = AppState::new();
    let actions = state.update(Message::StartRpcServer);
    assert_eq!(notes(&actions), vec!["Unable to Start Discord RPC because no valid appplication id has been set. Enter an pplication id and hit the validate button."]);
    assert_eq!(state.server_status, None);
}

#[test]
fn start_twice_then_stop_twice() {
    let mut state = validated("123456789012345678");
    state.update(Message::RpcDataStateUpdate("Playing".to_string()));
    let actions = state.update(Message::StartRpcServer);
    assert_eq!(actions.len(), 2);
    match &actions[0] {
        Action::Publish(plan) => assert_eq!(plan.state.as_deref(), Some("Playing")),
        other => panic!("expected a publish, got {:?}", other),
    }
    assert_eq!(notes(&actions), vec!["Started RPC server. Check discord for activity"]);
    assert_eq!(state.server_status, Some(true));

    let again = state.update(Message::StartRpcServer);
    assert_eq!(notes(&again), vec!["Unable to Start Discord RPC because the server is aldready running. Please stop server before starting again."]);
    assert_eq!(again.len(), 1);

    assert_eq!(state.update(Message::StopRpcServer), vec![Action::Disconnect]);
    assert_eq!(state.server_status, Some(false));
    assert_eq!(
        notes(&state.update(Message::StopRpcServer)),
        vec!["Cannot stop RPC server as there is no running server!"]
    );
}

#[test]
fn start_warns_about_broken_buttons() {
    let mut state = validated("123456789012345678");
    state.update(Message::ButtonAShowUpdate);
    state.update(Message::ButtonBShowUpdate);
    state.update(Message::RpcDataLargeButtonATextUpdate("Site".to_string()));
    state.update(Message::RpcDataLargeButtonAUrlUpdate("https://example.com".to_string()));
    state.update(Message::RpcDataLargeButtonBTextUpdate("Docs".to_string()));
    state.update(Message::RpcDataLargeButtonBUrlUpdate("nope".to_string()));
    let (a, b) = state.refresh_button_checks();
    assert_eq!(a.text, "Valid Button Entered");
    assert_eq!(b.text, "Valid Button B Text, bad Button B URL");
    assert!(state.button_a_valid);
    assert!(!state.button_b_valid);
    let actions = state.update(Message::StartRpcServer);
    assert_eq!(
        notes(&actions),
        vec![
            "The RPC will start without Button B, for the button config is invalid.",
            "Started RPC server. Check discord for activity",
        ]
    );
    match &actions[1] {
        Action::Publish(plan) => assert_eq!(
            plan.buttons,
            Some(vec![ButtonPlan {
                label: "Site".to_string(),
                url: "https://example.com".to_string()
            }])
        ),
        other => panic!("expected a publish, got {:?}", other),
    }
}

#[test]
fn edits_fill_their_fields() {
    let (mut state, _) = AppState::new();
    state.update(Message::RpcDataDetailsUpdate("d".to_string()));
    state.update(Message::RpcDataSmallImageUpdate("si".to_string()));
    state.update(Message::RpcDataSmallTextUpdate("st".to_string()));
    state.update(Message::RpcDataLargeImageUpdate("li".to_string()));
    state.update(Message::RpcDataLargeTextUpdate("lt".to_string()));
    assert_eq!(state.data.details_value.as_deref(), Some("d"));
    assert_eq!(state.data.small_image_key.as_deref(), Some("si"));
    assert_eq!(state.data.small_image_text.as_deref(), Some("st"));
    assert_eq!(state.data.large_image_key.as_deref(), Some("li"));
    assert_eq!(state.data.large_image_text.as_deref(), Some("lt"));
    assert_eq!(state.data.state_value, None);
    assert!(state.update(Message::StartApp("Started Software!".to_string())).is_empty());
}

#[test]
fn toggles_clear_fields() {
    let (mut state, _) = AppState::new();
    state.update(Message::SmallImgShowUpdate);
    assert!(state.small_image_show);
    state.update(Message::RpcDataSmallImageUpdate("si".to_string()));
    state.update(Message::SmallImgHideUpdate);
    assert!(!state.small_image_show);
    assert_eq!(state.data.small_image_key, None);

    state.update(Message::LargeImgShowUpdate);
    state.update(Message::RpcDataLargeTextUpdate("lt".to_string()));
    state.update(Message::LargeImgHideUpdate);
    assert!(!state.large_image_show);
    assert_eq!(state.data.large_image_text, None);
}

#[test]
fn hiding_button_a_empties_button_b() {
    let (mut state, _) = AppState::new();
    state.update(Message::ButtonAShowUpdate);
    state.update(Message::RpcDataLargeButtonATextUpdate("Site".to_string()));
    state.update(Message::RpcDataLargeButtonBUrlUpdate("https://b.example".to_string()));
    state.update(Message::ButtonAHideUpdate);
    assert!(!state.button_a_show);
    assert_eq!(state.data.button_a_text.as_deref(), Some("Site"));
    assert_eq!(state.data.button_b_url, None);
    state.update(Message::ButtonBShowUpdate);
    state.update(Message::RpcDataLargeButtonBTextUpdate("x".to_string()));
    state.update(Message::ButtonBHideUpdate);
    assert!(!state.button_b_show);
    assert_eq!(state.data.button_b_text, None);
}

#[test]
fn disconnect_notes() {
    assert_eq!(disconnect_note(&Ok(())), "Successfully stopped RPC server");
    assert_eq!(
        disconnect_note(&Err("broken pipe".to_string())),
        "Unable to stop RPC server broken pipe"
    );
}

#[test]
fn button_notes() {
    assert_eq!(
        button_note(ButtonSlot::A, ButtonCheck::Incomplete).text,
        "Invalid Button A. Both Text and url must exist."
    );
    assert_eq!(
        button_note(ButtonSlot::B, ButtonCheck::TooShort).text,
        "InValid Button B Entered. Please enter text inside"
    );
    assert_eq!(
        button_note(ButtonSlot::B, ButtonCheck::Valid).color,
        Rgba { red: 0, green: 1000, blue: 0, alpha: 1000 }
    );
    assert_eq!(
        button_note(ButtonSlot::A, ButtonCheck::BadUrl).color,
        Rgba { red: 1000, green: 0, blue: 0, alpha: 1000 }
    );
}
