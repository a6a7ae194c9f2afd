//! The editor: its state, the messages its widgets send, and the rule that
//! answers each message with the next state and the outside work to do.

use vstd::prelude::*;
use crate::client_id::{is_valid_client_id, spec_is_valid_client_id};
use crate::presence::{
    activity_plan, check_button, spec_activity_plan, spec_button_check, ActivityPlan,
    ActivityPlanView, ButtonCheck, PayloadView, RpcPayloadData,
};
use crate::styles::Rgba;

verus! {

/// What the widgets report.
#[derive(Clone, Debug, PartialEq, Eq)]
pub enum Message {
    StartApp(String),
    ClientIdInputChanged(String),
    ValidateClientId,
    StartRpcServer,
    StopRpcServer,
    RpcDataStateUpdate(String),
    RpcDataDetailsUpdate(String),
    RpcDataSmallTextUpdate(String),
    RpcDataSmallImageUpdate(String),
    RpcDataLargeTextUpdate(String),
    RpcDataLargeImageUpdate(String),
    RpcDataLargeButtonATextUpdate(String),
    RpcDataLargeButtonAUrlUpdate(String),
    RpcDataLargeButtonBTextUpdate(String),
    RpcDataLargeButtonBUrlUpdate(String),
    SmallImgShowUpdate,
    SmallImgHideUpdate,
    LargeImgShowUpdate,
    LargeImgHideUpdate,
    ButtonAShowUpdate,
    ButtonAHideUpdate,
    ButtonBShowUpdate,
    ButtonBHideUpdate,
}

pub enum MessageView {
    StartApp(Seq<char>),
    ClientIdInputChanged(Seq<char>),
    ValidateClientId,
    StartRpcServer,
    StopRpcServer,
    RpcDataStateUpdate(Seq<char>),
    RpcDataDetailsUpdate(Seq<char>),
    RpcDataSmallTextUpdate(Seq<char>),
    RpcDataSmallImageUpdate(Seq<char>),
    RpcDataLargeTextUpdate(Seq<char>),
    RpcDataLargeImageUpdate(Seq<char>),
    RpcDataLargeButtonATextUpdate(Seq<char>),
    RpcDataLargeButtonAUrlUpdate(Seq<char>),
    RpcDataLargeButtonBTextUpdate(Seq<char>),
    RpcDataLargeButtonBUrlUpdate(Seq<char>),
    SmallImgShowUpdate,
    SmallImgHideUpdate,
    LargeImgShowUpdate,
    LargeImgHideUpdate,
    ButtonAShowUpdate,
    ButtonAHideUpdate,
    ButtonBShowUpdate,
    ButtonBHideUpdate,
}

impl View for Message {
    type V = MessageView;

    open spec fn view(&self) -> MessageView {
        match self {
            Message::StartApp(s) => MessageView::StartApp(s@),
            Message::ClientIdInputChanged(s) => MessageView::ClientIdInputChanged(s@),
            Message::ValidateClientId => MessageView::ValidateClientId,
            Message::StartRpcServer => MessageView::StartRpcServer,
            Message::StopRpcServer => MessageView::StopRpcServer,
            Message::RpcDataStateUpdate(s) => MessageView::RpcDataStateUpdate(s@),
            Message::RpcDataDetailsUpdate(s) => MessageView::RpcDataDetailsUpdate(s@),
            Message::RpcDataSmallTextUpdate(s) => MessageView::RpcDataSmallTextUpdate(s@),
            Message::RpcDataSmallImageUpdate(s) => MessageView::RpcDataSmallImageUpdate(s@),
            Message::RpcDataLargeTextUpdate(s) => MessageView::RpcDataLargeTextUpdate(s@),
            Message::RpcDataLargeImageUpdate(s) => MessageView::RpcDataLargeImageUpdate(s@),
            Message::RpcDataLargeButtonATextUpdate(s) => MessageView::RpcDataLargeButtonATextUpdate(
                s@,
            ),
            Message::RpcDataLargeButtonAUrlUpdate(s) => MessageView::RpcDataLargeButtonAUrlUpdate(
                s@,
            ),
            Message::RpcDataLargeButtonBTextUpdate(s) => MessageView::RpcDataLargeButtonBTextUpdate(
                s@,
            ),
            Message::RpcDataLargeButtonBUrlUpdate(s) => MessageView::RpcDataLargeButtonBUrlUpdate(
                s@,
            ),
            Message::SmallImgShowUpdate => MessageView::SmallImgShowUpdate,
            Message::SmallImgHideUpdate => MessageView::SmallImgHideUpdate,
            Message::LargeImgShowUpdate => MessageView::LargeImgShowUpdate,
            Message::LargeImgHideUpdate => MessageView::LargeImgHideUpdate,
            Message::ButtonAShowUpdate => MessageView::ButtonAShowUpdate,
            Message::ButtonAHideUpdate => MessageView::ButtonAHideUpdate,
            Message::ButtonBShowUpdate => MessageView::ButtonBShowUpdate,
            Message::ButtonBHideUpdate => MessageView::ButtonBHideUpdate,
        }
    }
}

/// Outside work that the editor asks for, in the order given.
#[derive(Debug, PartialEq, Eq)]
pub enum Action {
    /// Show a desktop notification with this body.
    Notify(String),
    /// From now on talk to Discord as the application with this id.
    UseClient(String),
    /// Connect to Discord and publish this activity, away from the editor.
    Publish(ActivityPlan),
    /// Close the connection to Discord; report the outcome to
    /// `disconnect_note`.
    Disconnect,
}

pub enum ActionView {
    Notify(Seq<char>),
    UseClient(Seq<char>),
    Publish(ActivityPlanView),
    Disconnect,
}

impl View for Action {
    type V = ActionView;

    open spec fn view(&self) -> ActionView {
        match self {
            Action::Notify(s) => ActionView::Notify(s@),
            Action::UseClient(s) => ActionView::UseClient(s@),
            Action::Publish(p) => ActionView::Publish(p@),
            Action::Disconnect => ActionView::Disconnect,
        }
    }
}

pub open spec fn actions_view(v: Seq<Action>) -> Seq<ActionView> {
    v.map_values(|a: Action| a@)
}

/// The editor's state.
#[derive(Debug, PartialEq, Eq)]
pub struct AppState {
    /// The application id as typed.
    pub client_id: String,
    /// Whether the id passed its last check.
    pub client_id_valid: bool,
    /// The outcome of the last check of the id; `None` before the first.
    pub client_id_status: Option<bool>,
    /// `Some(true)` while publishing, `Some(false)` once stopped, `None`
    /// before the first start.
    pub server_status: Option<bool>,
    /// The activity being edited.
    pub data: RpcPayloadData,
    pub small_image_show: bool,
    pub large_image_show: bool,
    pub button_a_show: bool,
    /// Whether button A passed its last check.
    pub button_a_valid: bool,
    pub button_b_show: bool,
    /// Whether button B passed its last check.
    pub button_b_valid: bool,
}

pub struct AppStateView {
    pub client_id: Seq<char>,
    pub client_id_valid: bool,
    pub client_id_status: Option<bool>,
    pub server_status: Option<bool>,
    pub data: PayloadView,
    pub small_image_show: bool,
    pub large_image_show: bool,
    pub button_a_show: bool,
    pub button_a_valid: bool,
    pub button_b_show: bool,
    pub button_b_valid: bool,
}

impl View for AppState {
    type V = AppStateView;

    open spec fn view(&self) -> AppStateView {
        AppStateView {
            client_id: self.client_id@,
            client_id_valid: self.client_id_valid,
            client_id_status: self.client_id_status,
            server_status: self.server_status,
            data: self.data@,
            small_image_show: self.small_image_show,
            large_image_show: self.large_image_show,
            button_a_show: self.button_a_show,
            button_a_valid: self.button_a_valid,
            button_b_show: self.button_b_show,
            button_b_valid: self.button_b_valid,
        }
    }
}

/// The application id used until another one is validated.
pub open spec fn initial_client_id() -> Seq<char> {
    "731140044970262590"@
}

pub open spec fn valid_id_note() -> Seq<char> {
    "Valid Client ID provided! You may start RPC"@
}

pub open spec fn invalid_id_note() -> Seq<char> {
    "InValid Client ID provided. RPC will not work untill changed and re-validated"@
}

pub open spec fn no_button_a_note() -> Seq<char> {
    "The RPC will start without Button A, for the button config is invalid."@
}

pub open spec fn no_button_b_note() -> Seq<char> {
    "The RPC will start without Button B, for the button config is invalid."@
}

pub open spec fn started_note() -> Seq<char> {
    "Started RPC server. Check discord for activity"@
}

pub open spec fn no_id_note() -> Seq<char> {
    "Unable to Start Discord RPC because no valid appplication id has been set. Enter an pplication id and hit the validate button."@
}

pub open spec fn already_running_note() -> Seq<char> {
    "Unable to Start Discord RPC because the server is aldready running. Please stop server before starting again."@
}

pub open spec fn not_running_note() -> Seq<char> {
    "Cannot stop RPC server as there is no running server!"@
}

pub open spec fn stopped_note() -> Seq<char> {
    "Successfully stopped RPC server"@
}

pub open spec fn stop_failed_prefix() -> Seq<char> {
    "Unable to stop RPC server "@
}

/// The editor before any message: nothing entered, every optional part
/// hidden, nothing checked, not publishing.
pub open spec fn spec_initial() -> AppStateView {
    AppStateView {
        client_id: Seq::empty(),
        client_id_valid: false,
        client_id_status: None,
        server_status: None,
        data: PayloadView::empty(),
        small_image_show: false,
        large_image_show: false,
        button_a_show: false,
        button_a_valid: false,
        button_b_show: false,
        button_b_valid: false,
    }
}

/// Whether the typed id is acceptable.
pub open spec fn id_ok(s: AppStateView) -> bool {
    spec_is_valid_client_id(vstd::utf8::encode_utf8(s.client_id))
}

/// Whether a start request may go ahead: not already publishing.
pub open spec fn can_start(s: AppStateView) -> bool {
    s.server_status != Some(true)
}

/// Whether a stop request may go ahead: publishing.
pub open spec fn can_stop(s: AppStateView) -> bool {
    s.server_status == Some(true)
}

/// The warnings given on a start request for shown buttons that failed their
/// check.
pub open spec fn start_warnings(s: AppStateView) -> Seq<ActionView> {
    (if !s.button_a_valid && s.button_a_show {
        seq![ActionView::Notify(no_button_a_note())]
    } else {
        Seq::empty()
    }) + (if !s.button_b_valid && s.button_b_show {
        seq![ActionView::Notify(no_button_b_note())]
    } else {
        Seq::empty()
    })
}

pub open spec fn spec_start(s: AppStateView) -> (AppStateView, Seq<ActionView>) {
    if can_start(s) && s.client_id_valid {
        (
            AppStateView { server_status: Some(true), ..s },
            start_warnings(s) + seq![
                ActionView::Publish(
                    spec_activity_plan(s.data, s.button_a_valid, s.button_b_valid),
                ),
                ActionView::Notify(started_note()),
            ],
        )
    } else if can_start(s) {
        (s, start_warnings(s) + seq![ActionView::Notify(no_id_note())])
    } else {
        (s, start_warnings(s) + seq![ActionView::Notify(already_running_note())])
    }
}

pub open spec fn spec_stop(s: AppStateView) -> (AppStateView, Seq<ActionView>) {
    if can_stop(s) {
        (AppStateView { server_status: Some(false), ..s }, seq![ActionView::Disconnect])
    } else {
        (s, seq![ActionView::Notify(not_running_note())])
    }
}

pub open spec fn spec_validate(s: AppStateView) -> (AppStateView, Seq<ActionView>) {
    let ok = id_ok(s);
    (
        AppStateView { client_id_valid: ok, client_id_status: Some(ok), ..s },
        if ok {
            seq![ActionView::UseClient(s.client_id), ActionView::Notify(valid_id_note())]
        } else {
            seq![ActionView::Notify(invalid_id_note())]
        },
    )
}

pub open spec fn with_data(s: AppStateView, d: PayloadView) -> AppStateView {
    AppStateView { data: d, ..s }
}

/// The next state and the outside work for a message.
pub open spec fn spec_update(s: AppStateView, m: MessageView) -> (AppStateView, Seq<ActionView>) {
    let d = s.data;
    match m {
        MessageView::StartApp(_) => (s, Seq::empty()),
        MessageView::ClientIdInputChanged(v) => (AppStateView { client_id: v, ..s }, Seq::empty()),
        MessageView::ValidateClientId => spec_validate(s),
        MessageView::StartRpcServer => spec_start(s),
        MessageView::StopRpcServer => spec_stop(s),
        MessageView::RpcDataStateUpdate(v) => (
            with_data(s, PayloadView { state_value: Some(v), ..d }),
            Seq::empty(),
        ),
        MessageView::RpcDataDetailsUpdate(v) => (
            with_data(s, PayloadView { details_value: Some(v), ..d }),
            Seq::empty(),
        ),
        MessageView::RpcDataSmallTextUpdate(v) => (
            with_data(s, PayloadView { small_image_text: Some(v), ..d }),
            Seq::empty(),
        ),
        MessageView::RpcDataSmallImageUpdate(v) => (
            with_data(s, PayloadView { small_image_key: Some(v), ..d }),
            Seq::empty(),
        ),
        MessageView::RpcDataLargeTextUpdate(v) => (
            with_data(s, PayloadView { large_image_text: Some(v), ..d }),
            Seq::empty(),
        ),
        MessageView::RpcDataLargeImageUpdate(v) => (
            with_data(s, PayloadView { large_image_key: Some(v), ..d }),
            Seq::empty(),
        ),
        MessageView::RpcDataLargeButtonATextUpdate(v) => (
            with_data(s, PayloadView { button_a_text: Some(v), ..d }),
            Seq::empty(),
        ),
        MessageView::RpcDataLargeButtonAUrlUpdate(v) => (
            with_data(s, PayloadView { button_a_url: Some(v), ..d }),
            Seq::empty(),
        ),
        MessageView::RpcDataLargeButtonBTextUpdate(v) => (
            with_data(s, PayloadView { button_b_text: Some(v), ..d }),
            Seq::empty(),
        ),
        MessageView::RpcDataLargeButtonBUrlUpdate(v) => (
            with_data(s, PayloadView { button_b_url: Some(v), ..d }),
            Seq::empty(),
        ),
        MessageView::SmallImgShowUpdate => (
            AppStateView {
                small_image_show: true,
                data: PayloadView { small_image_key: None, small_image_text: None, ..d },
                ..s
            },
            Seq::empty(),
        ),
        MessageView::SmallImgHideUpdate => (
            AppStateView {
                small_image_show: false,
                data: PayloadView { small_image_key: None, small_image_text: None, ..d },
                ..s
            },
            Seq::empty(),
        ),
        MessageView::LargeImgShowUpdate => (
            AppStateView {
                large_image_show: true,
                data: PayloadView { large_image_key: None, large_image_text: None, ..d },
                ..s
            },
            Seq::empty(),
        ),
        MessageView::LargeImgHideUpdate => (
            AppStateView {
                large_image_show: false,
                data: PayloadView { large_image_key: None, large_image_text: None, ..d },
                ..s
            },
            Seq::empty(),
        ),
        MessageView::ButtonAShowUpdate => (
            AppStateView {
                button_a_show: true,
                data: PayloadView { button_a_text: None, button_a_url: None, ..d },
                ..s
            },
            Seq::empty(),
        ),
        // Hiding button A empties the fields of button B and keeps those of A.
        MessageView::ButtonAHideUpdate => (
            AppStateView {
                button_a_show: false,
                data: PayloadView { button_b_text: None, button_b_url: None, ..d },
                ..s
            },
            Seq::empty(),
        ),
        MessageView::ButtonBShowUpdate => (
            AppStateView {
                button_b_show: true,
                data: PayloadView { button_b_text: None, button_b_url: None, ..d },
                ..s
            },
            Seq::empty(),
        ),
        MessageView::ButtonBHideUpdate => (
            AppStateView {
                button_b_show: false,
                data: PayloadView { button_b_text: None, button_b_url: None, ..d },
                ..s
            },
            Seq::empty(),
        ),
    }
}

fn note(text: &str) -> (a: Action)
    ensures
        a@ == ActionView::Notify(text@),
{
    Action::Notify(String::from_str(text))
}

impl AppState {
    /// The editor at launch, and the outside work it starts with: talking to
    /// Discord as the built-in application id.
    pub fn new() -> (r: (AppState, Vec<Action>))
        ensures
            r.0@ == spec_initial(),
            actions_view(r.1@) == seq![ActionView::UseClient(initial_client_id())],
    {
        let state = AppState {
            client_id: String::new(),
            client_id_valid: false,
            client_id_status: None,
            server_status: None,
            data: RpcPayloadData::empty(),
            small_image_show: false,
            large_image_show: false,
            button_a_show: false,
            button_a_valid: false,
            button_b_show: false,
            button_b_valid: false,
        };
        let mut actions: Vec<Action> = Vec::new();
        actions.push(Action::UseClient(String::from_str("731140044970262590")));
        assert(actions_view(actions@) =~= seq![ActionView::UseClient(initial_client_id())]);
        (state, actions)
    }

    /// The window's title.
    pub fn title(&self) -> (t: String)
        ensures
            t@ == "Discord-RPC-GUI"@,
    {
        String::from_str("Discord-RPC-GUI")
    }

    /// The window's background colour.
    pub fn background_color(&self) -> (c: Rgba)
        ensures
            c == Rgba::spec_rgb(172, 184, 200),
    {
        Rgba::rgb(172, 184, 200)
    }

    fn validate(&mut self) -> (actions: Vec<Action>)
        ensures
            (final(self)@, actions_view(actions@)) == spec_validate(old(self)@),
    {
        let ok = is_valid_client_id(self.client_id.as_str());
        self.client_id_valid = ok;
        self.client_id_status = Some(ok);
        let mut actions: Vec<Action> = Vec::new();
        if ok {
            actions.push(Action::UseClient(self.client_id.clone()));
            actions.push(note("Valid Client ID provided! You may start RPC"));
        } else {
            actions.push(
                note(
                    "InValid Client ID provided. RPC will not work untill changed and re-validated",
                ),
            );
        }
        assert(actions_view(actions@) =~= spec_validate(old(self)@).1);
        actions
    }

    fn start(&mut self) -> (actions: Vec<Action>)
        ensures
            (final(self)@, actions_view(actions@)) == spec_start(old(self)@),
    {
        let ghost s = self@;
        let may_start = match self.server_status {
            Some(v) => !v,
            None => true,
        };
        let mut actions: Vec<Action> = Vec::new();
        if !self.button_a_valid && self.button_a_show {
            actions.push(
                note("The RPC will start without Button A, for the button config is invalid."),
            );
        }
        if !self.button_b_valid && self.button_b_show {
            actions.push(
                note("The RPC will start without Button B, for the button config is invalid."),
            );
        }
        assert(actions_view(actions@) =~= start_warnings(s));
        let ghost warned = actions@;
        if may_start && self.client_id_valid {
            let plan = activity_plan(&self.data, self.button_a_valid, self.button_b_valid);
            self.server_status = Some(true);
            actions.push(Action::Publish(plan));
            actions.push(note("Started RPC server. Check discord for activity"));
        } else if may_start {
            actions.push(
                note(
                    "Unable to Start Discord RPC because no valid appplication id has been set. Enter an pplication id and hit the validate button.",
                ),
            );
        } else {
            actions.push(
                note(
                    "Unable to Start Discord RPC because the server is aldready running. Please stop server before starting again.",
                ),
            );
        }
        assert(actions_view(actions@) =~= spec_start(s).1);
        actions
    }

    fn stop(&mut self) -> (actions: Vec<Action>)
        ensures
            (final(self)@, actions_view(actions@)) == spec_stop(old(self)@),
    {
        let may_stop = match self.server_status {
            Some(v) => v,
            None => false,
        };
        let mut actions: Vec<Action> = Vec::new();
        if may_stop {
            self.server_status = Some(false);
            actions.push(Action::Disconnect);
        } else {
            actions.push(note("Cannot stop RPC server as there is no running server!"));
        }
        assert(actions_view(actions@) =~= spec_stop(old(self)@).1);
        actions
    }

    /// Answers a message: changes the state and returns the outside work to
    /// do, as `spec_update` says.
    pub fn update(&mut self, message: Message) -> (actions: Vec<Action>)
        ensures
            (final(self)@, actions_view(actions@)) == spec_update(old(self)@, message@),
    {
        let none: Vec<Action> = Vec::new();
        assert(actions_view(none@) =~= Seq::<ActionView>::empty());
        match message {
            Message::StartApp(_) => none,
            Message::ClientIdInputChanged(v) => {
                self.client_id = v;
                none
            },
            Message::ValidateClientId => self.validate(),
            Message::StartRpcServer => self.start(),
            Message::StopRpcServer => self.stop(),
            Message::RpcDataStateUpdate(v) => {
                self.data.state_value = Some(v);
                none
            },
            Message::RpcDataDetailsUpdate(v) => {
                self.data.details_value = Some(v);
                none
            },
            Message::RpcDataSmallImageUpdate(v) => {
                self.data.small_image_key = Some(v);
                none
            },
            Message::RpcDataSmallTextUpdate(v) => {
                self.data.small_image_text = Some(v);
                none
            },
            Message::RpcDataLargeImageUpdate(v) => {
                self.data.large_image_key = Some(v);
                none
            },
            Message::RpcDataLargeTextUpdate(v) => {
                self.data.large_image_text = Some(v);
                none
            },
            Message::RpcDataLargeButtonATextUpdate(v) => {
                self.data.button_a_text = Some(v);
                none
            },
            Message::RpcDataLargeButtonAUrlUpdate(v) => {
                self.data.button_a_url = Some(v);
                none
            },
            Message::RpcDataLargeButtonBTextUpdate(v) => {
                self.data.button_b_text = Some(v);
                none
            },
            Message::RpcDataLargeButtonBUrlUpdate(v) => {
                self.data.button_b_url = Some(v);
                none
            },
            Message::SmallImgShowUpdate => {
                self.small_image_show = true;
                self.data.small_image_key = None;
                self.data.small_image_text = None;
                none
            },
            Message::SmallImgHideUpdate => {
                self.small_image_show = false;
                self.data.small_image_key = None;
                self.data.small_image_text = None;
                none
            },
            Message::LargeImgShowUpdate => {
                self.large_image_show = true;
                self.data.large_image_key = None;
                self.data.large_image_text = None;
                none
            },
            Message::LargeImgHideUpdate => {
                self.large_image_show = false;
                self.data.large_image_key = None;
                self.data.large_image_text = None;
                none
            },
            Message::ButtonAShowUpdate => {
                self.button_a_show = true;
                self.data.button_a_text = None;
                self.data.button_a_url = None;
                none
            },
            Message::ButtonAHideUpdate => {
                self.button_a_show = false;
                self.data.button_b_text = None;
                self.data.button_b_url = None;
                none
            },
            Message::ButtonBShowUpdate => {
                self.button_b_show = true;
                self.data.button_b_text = None;
                self.data.button_b_url = None;
                none
            },
            Message::ButtonBHideUpdate => {
                self.button_b_show = false;
                self.data.button_b_text = None;
                self.data.button_b_url = None;
                none
            },
        }
    }
}


/// A line of text shown in the window, with its colour.
#[derive(Debug, PartialEq, Eq)]
pub struct StatusText {
    pub text: String,
    pub color: Rgba,
}

pub struct StatusTextView {
    pub text: Seq<char>,
    pub color: Rgba,
}

impl View for StatusText {
    type V = StatusTextView;

    open spec fn view(&self) -> StatusTextView {
        StatusTextView { text: self.text@, color: self.color }
    }
}

pub open spec fn green() -> Rgba {
    Rgba::spec_rgb(0, 1000, 0)
}

pub open spec fn red() -> Rgba {
    Rgba::spec_rgb(1000, 0, 0)
}

/// The line under the id field: what the last check of the id said.
pub open spec fn spec_client_id_note(status: Option<bool>) -> StatusTextView {
    match status {
        Some(true) => StatusTextView { text: "Valid Application ID!"@, color: green() },
        Some(false) => StatusTextView {
            text: "Invalid Application ID. Enter and validate again"@,
            color: red(),
        },
        None => StatusTextView {
            text: "Enter Application ID from discord developer portal and click validate."@,
            color: Rgba::spec_white(),
        },
    }
}

/// Which of the two link buttons.
#[derive(Clone, Copy, Debug, PartialEq, Eq, Structural)]
pub enum ButtonSlot {
    A,
    B,
}

/// The line under a link button: what its check said.
pub open spec fn spec_button_note(slot: ButtonSlot, check: ButtonCheck) -> StatusTextView {
    match (slot, check) {
        (ButtonSlot::A, ButtonCheck::Incomplete) => StatusTextView {
            text: "Invalid Button A. Both Text and url must exist."@,
            color: Rgba::spec_white(),
        },
        (ButtonSlot::A, ButtonCheck::TooShort) => StatusTextView {
            text: "InValid Button Entered. Please enter text inside"@,
            color: red(),
        },
        (ButtonSlot::A, ButtonCheck::BadUrl) => StatusTextView {
            text: "Valid Button Text, bad Button URL"@,
            color: red(),
        },
        (ButtonSlot::A, ButtonCheck::Valid) => StatusTextView {
            text: "Valid Button Entered"@,
            color: green(),
        },
        (ButtonSlot::B, ButtonCheck::Incomplete) => StatusTextView {
            text: "Invalid Button B. Both Text and url must exist."@,
            color: Rgba::spec_white(),
        },
        (ButtonSlot::B, ButtonCheck::TooShort) => StatusTextView {
            text: "InValid Button B Entered. Please enter text inside"@,
            color: red(),
        },
        (ButtonSlot::B, ButtonCheck::BadUrl) => StatusTextView {
            text: "Valid Button B Text, bad Button B URL"@,
            color: red(),
        },
        (ButtonSlot::B, ButtonCheck::Valid) => StatusTextView {
            text: "Valid Button B Entered"@,
            color: green(),
        },
    }
}

fn status(text: &str, color: Rgba) -> (s: StatusText)
    ensures
        s@ == (StatusTextView { text: text@, color }),
{
    StatusText { text: String::from_str(text), color }
}

/// The line shown under a link button for the outcome of its check.
pub fn button_note(slot: ButtonSlot, check: ButtonCheck) -> (s: StatusText)
    ensures
        s@ == spec_button_note(slot, check),
{
    match (slot, check) {
        (ButtonSlot::A, ButtonCheck::Incomplete) => status(
            "Invalid Button A. Both Text and url must exist.",
            Rgba::white(),
        ),
        (ButtonSlot::A, ButtonCheck::TooShort) => status(
            "InValid Button Entered. Please enter text inside",
            Rgba::rgb(1000, 0, 0),
        ),
        (ButtonSlot::A, ButtonCheck::BadUrl) => status(
            "Valid Button Text, bad Button URL",
            Rgba::rgb(1000, 0, 0),
        ),
        (ButtonSlot::A, ButtonCheck::Valid) => status(
            "Valid Button Entered",
            Rgba::rgb(0, 1000, 0),
        ),
        (ButtonSlot::B, ButtonCheck::Incomplete) => status(
            "Invalid Button B. Both Text and url must exist.",
            Rgba::white(),
        ),
        (ButtonSlot::B, ButtonCheck::TooShort) => status(
            "InValid Button B Entered. Please enter text inside",
            Rgba::rgb(1000, 0, 0),
        ),
        (ButtonSlot::B, ButtonCheck::BadUrl) => status(
            "Valid Button B Text, bad Button B URL",
            Rgba::rgb(1000, 0, 0),
        ),
        (ButtonSlot::B, ButtonCheck::Valid) => status(
            "Valid Button B Entered",
            Rgba::rgb(0, 1000, 0),
        ),
    }
}

/// The state after the window is drawn: both buttons checked against the
/// fields as they stand.
pub open spec fn spec_refresh(s: AppStateView) -> AppStateView {
    AppStateView {
        button_a_valid: spec_button_check(s.data.button_a_text, s.data.button_a_url)
            == ButtonCheck::Valid,
        button_b_valid: spec_button_check(s.data.button_b_text, s.data.button_b_url)
            == ButtonCheck::Valid,
        ..s
    }
}

impl AppState {
    /// The line under the id field.
    pub fn client_id_note(&self) -> (s: StatusText)
        ensures
            s@ == spec_client_id_note(self.client_id_status),
    {
        match self.client_id_status {
            Some(true) => status("Valid Application ID!", Rgba::rgb(0, 1000, 0)),
            Some(false) => status(
                "Invalid Application ID. Enter and validate again",
                Rgba::rgb(1000, 0, 0),
            ),
            None => status(
                "Enter Application ID from discord developer portal and click validate.",
                Rgba::white(),
            ),
        }
    }

    /// Checks both link buttons as the window is drawn, records whether each
    /// passed, and returns the lines to show under button A and button B.
    pub fn refresh_button_checks(&mut self) -> (notes: (StatusText, StatusText))
        ensures
            final(self)@ == spec_refresh(old(self)@),
            notes.0@ == spec_button_note(
                ButtonSlot::A,
                spec_button_check(old(self)@.data.button_a_text, old(self)@.data.button_a_url),
            ),
            notes.1@ == spec_button_note(
                ButtonSlot::B,
                spec_button_check(old(self)@.data.button_b_text, old(self)@.data.button_b_url),
            ),
    {
        let check_a = check_button(&self.data.button_a_text, &self.data.button_a_url);
        let check_b = check_button(&self.data.button_b_text, &self.data.button_b_url);
        self.button_a_valid = check_a == ButtonCheck::Valid;
        self.button_b_valid = check_b == ButtonCheck::Valid;
        (button_note(ButtonSlot::A, check_a), button_note(ButtonSlot::B, check_b))
    }
}

/// The notification body after the connection to Discord was closed, or the
/// attempt failed with the given description.
pub open spec fn spec_disconnect_note(result: Result<(), Seq<char>>) -> Seq<char> {
    match result {
        Ok(()) => stopped_note(),
        Err(e) => stop_failed_prefix() + e,
    }
}

/// The notification body for the outcome of a `Disconnect`.
pub fn disconnect_note(result: &Result<(), String>) -> (body: String)
    ensures
        body@ == spec_disconnect_note(
            match result {
                Ok(()) => Ok(()),
                Err(e) => Err(e@),
            },
        ),
{
    match result {
        Ok(()) => String::from_str("Successfully stopped RPC server"),
        Err(e) => {
            let mut body = String::from_str("Unable to stop RPC server ");
            body.append(e.as_str());
            body
        },
    }
}

/// The value the editor's start-up task reports.
pub fn startup_bs() -> (s: String)
    ensures
        s@ == "Started Software!"@,
{
    String::from_str("Started Software!")
}

} // verus!
