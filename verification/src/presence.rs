//! The activity being edited, the activity that is published from it, and the
//! check of its two link buttons.

use vstd::prelude::*;

verus! {

pub open spec fn opt_view(o: Option<String>) -> Option<Seq<char>> {
    match o {
        Some(s) => Some(s@),
        None => None,
    }
}

/// The ten optional fields of the activity being edited.
#[derive(Debug, PartialEq, Eq)]
pub struct RpcPayloadData {
    pub state_value: Option<String>,
    pub details_value: Option<String>,
    pub small_image_key: Option<String>,
    pub small_image_text: Option<String>,
    pub large_image_key: Option<String>,
    pub large_image_text: Option<String>,
    pub button_a_text: Option<String>,
    pub button_a_url: Option<String>,
    pub button_b_text: Option<String>,
    pub button_b_url: Option<String>,
}

pub struct PayloadView {
    pub state_value: Option<Seq<char>>,
    pub details_value: Option<Seq<char>>,
    pub small_image_key: Option<Seq<char>>,
    pub small_image_text: Option<Seq<char>>,
    pub large_image_key: Option<Seq<char>>,
    pub large_image_text: Option<Seq<char>>,
    pub button_a_text: Option<Seq<char>>,
    pub button_a_url: Option<Seq<char>>,
    pub button_b_text: Option<Seq<char>>,
    pub button_b_url: Option<Seq<char>>,
}

impl View for RpcPayloadData {
    type V = PayloadView;

    open spec fn view(&self) -> PayloadView {
        PayloadView {
            state_value: opt_view(self.state_value),
            details_value: opt_view(self.details_value),
            small_image_key: opt_view(self.small_image_key),
            small_image_text: opt_view(self.small_image_text),
            large_image_key: opt_view(self.large_image_key),
            large_image_text: opt_view(self.large_image_text),
            button_a_text: opt_view(self.button_a_text),
            button_a_url: opt_view(self.button_a_url),
            button_b_text: opt_view(self.button_b_text),
            button_b_url: opt_view(self.button_b_url),
        }
    }
}

impl PayloadView {
    pub open spec fn empty() -> PayloadView {
        PayloadView {
            state_value: None,
            details_value: None,
            small_image_key: None,
            small_image_text: None,
            large_image_key: None,
            large_image_text: None,
            button_a_text: None,
            button_a_url: None,
            button_b_text: None,
            button_b_url: None,
        }
    }
}

/// A copy of an optional text.
pub fn copy_text(o: &Option<String>) -> (r: Option<String>)
    ensures
        opt_view(r) == opt_view(*o),
{
    match o {
        Some(s) => Some(s.clone()),
        None => None,
    }
}

/// The text an input field shows for an optional value: the value, or nothing.
pub fn shown_text(o: &Option<String>) -> (r: &str)
    ensures
        r@ == (match opt_view(*o) {
            Some(s) => s,
            None => Seq::<char>::empty(),
        }),
{
    match o {
        Some(s) => s.as_str(),
        None => {
            proof {
                reveal_strlit("");
            }
            ""
        },
    }
}

impl RpcPayloadData {
    /// The activity before anything was entered: every field empty.
    pub fn empty() -> (p: RpcPayloadData)
        ensures
            p@ == PayloadView::empty(),
    {
        RpcPayloadData {
            state_value: None,
            details_value: None,
            small_image_key: None,
            small_image_text: None,
            large_image_key: None,
            large_image_text: None,
            button_a_text: None,
            button_a_url: None,
            button_b_text: None,
            button_b_url: None,
        }
    }

    /// A copy of the activity.
    pub fn duplicate(&self) -> (p: RpcPayloadData)
        ensures
            p@ == self@,
    {
        RpcPayloadData {
            state_value: copy_text(&self.state_value),
            details_value: copy_text(&self.details_value),
            small_image_key: copy_text(&self.small_image_key),
            small_image_text: copy_text(&self.small_image_text),
            large_image_key: copy_text(&self.large_image_key),
            large_image_text: copy_text(&self.large_image_text),
            button_a_text: copy_text(&self.button_a_text),
            button_a_url: copy_text(&self.button_a_url),
            button_b_text: copy_text(&self.button_b_text),
            button_b_url: copy_text(&self.button_b_url),
        }
    }
}

/// A link button of a published activity.
#[derive(Debug, PartialEq, Eq)]
pub struct ButtonPlan {
    pub label: String,
    pub url: String,
}

/// The images of a published activity and their hover texts.
#[derive(Debug, PartialEq, Eq)]
pub struct AssetsPlan {
    pub large_image: Option<String>,
    pub large_text: Option<String>,
    pub small_image: Option<String>,
    pub small_text: Option<String>,
}

/// The activity that is published: the fields that were entered, the images
/// only when one of their four fields was entered, the buttons only when at
/// least one is published.
#[derive(Debug, PartialEq, Eq)]
pub struct ActivityPlan {
    pub state: Option<String>,
    pub details: Option<String>,
    pub assets: Option<AssetsPlan>,
    pub buttons: Option<Vec<ButtonPlan>>,
}

pub struct ButtonPlanView {
    pub label: Seq<char>,
    pub url: Seq<char>,
}

pub struct AssetsPlanView {
    pub large_image: Option<Seq<char>>,
    pub large_text: Option<Seq<char>>,
    pub small_image: Option<Seq<char>>,
    pub small_text: Option<Seq<char>>,
}

pub struct ActivityPlanView {
    pub state: Option<Seq<char>>,
    pub details: Option<Seq<char>>,
    pub assets: Option<AssetsPlanView>,
    pub buttons: Option<Seq<ButtonPlanView>>,
}

impl View for ButtonPlan {
    type V = ButtonPlanView;

    open spec fn view(&self) -> ButtonPlanView {
        ButtonPlanView { label: self.label@, url: self.url@ }
    }
}

impl View for AssetsPlan {
    type V = AssetsPlanView;

    open spec fn view(&self) -> AssetsPlanView {
        AssetsPlanView {
            large_image: opt_view(self.large_image),
            large_text: opt_view(self.large_text),
            small_image: opt_view(self.small_image),
            small_text: opt_view(self.small_text),
        }
    }
}

pub open spec fn buttons_view(v: Seq<ButtonPlan>) -> Seq<ButtonPlanView> {
    v.map_values(|b: ButtonPlan| b@)
}

impl View for ActivityPlan {
    type V = ActivityPlanView;

    open spec fn view(&self) -> ActivityPlanView {
        ActivityPlanView {
            state: opt_view(self.state),
            details: opt_view(self.details),
            assets: match self.assets {
                Some(a) => Some(a@),
                None => None,
            },
            buttons: match self.buttons {
                Some(v) => Some(buttons_view(v@)),
                None => None,
            },
        }
    }
}

/// The button published for one text/link pair: only when it is wanted and
/// both parts were entered.
pub open spec fn spec_button_entry(
    text: Option<Seq<char>>,
    url: Option<Seq<char>>,
    wanted: bool,
) -> Seq<ButtonPlanView> {
    if wanted && text is Some && url is Some {
        seq![ButtonPlanView { label: text->0, url: url->0 }]
    } else {
        Seq::empty()
    }
}

/// The activity published from the edited fields; `add_button_a` and
/// `add_button_b` say whether each button passed its check.
pub open spec fn spec_activity_plan(
    p: PayloadView,
    add_button_a: bool,
    add_button_b: bool,
) -> ActivityPlanView {
    let buttons = spec_button_entry(p.button_a_text, p.button_a_url, add_button_a)
        + spec_button_entry(p.button_b_text, p.button_b_url, add_button_b);
    ActivityPlanView {
        state: p.state_value,
        details: p.details_value,
        assets: if p.small_image_key is Some || p.small_image_text is Some || p.large_image_key is Some
            || p.large_image_text is Some {
            Some(
                AssetsPlanView {
                    large_image: p.large_image_key,
                    large_text: p.large_image_text,
                    small_image: p.small_image_key,
                    small_text: p.small_image_text,
                },
            )
        } else {
            None
        },
        buttons: if buttons.len() > 0 {
            Some(buttons)
        } else {
            None
        },
    }
}

fn push_button(
    buttons: &mut Vec<ButtonPlan>,
    text: &Option<String>,
    url: &Option<String>,
    wanted: bool,
)
    ensures
        buttons_view(final(buttons)@) == buttons_view(old(buttons)@) + spec_button_entry(
            opt_view(*text),
            opt_view(*url),
            wanted,
        ),
{
    let ghost before = buttons@;
    if wanted {
        match (text, url) {
            (Some(t), Some(u)) => {
                buttons.push(ButtonPlan { label: t.clone(), url: u.clone() });
                assert(buttons_view(buttons@) =~= buttons_view(before) + spec_button_entry(
                    opt_view(*text),
                    opt_view(*url),
                    wanted,
                ));
            },
            _ => {
                assert(buttons_view(buttons@) =~= buttons_view(before) + spec_button_entry(
                    opt_view(*text),
                    opt_view(*url),
                    wanted,
                ));
            },
        }
    } else {
        assert(buttons_view(buttons@) =~= buttons_view(before) + spec_button_entry(
            opt_view(*text),
            opt_view(*url),
            wanted,
        ));
    }
}

/// Builds the activity to publish from the edited fields.
pub fn activity_plan(data: &RpcPayloadData, add_button_a: bool, add_button_b: bool) -> (plan:
    ActivityPlan)
    ensures
        plan@ == spec_activity_plan(data@, add_button_a, add_button_b),
{
    let add_assets = data.small_image_key.is_some() || data.small_image_text.is_some()
        || data.large_image_key.is_some() || data.large_image_text.is_some();
    let assets = if add_assets {
        Some(
            AssetsPlan {
                large_image: copy_text(&data.large_image_key),
                large_text: copy_text(&data.large_image_text),
                small_image: copy_text(&data.small_image_key),
                small_text: copy_text(&data.small_image_text),
            },
        )
    } else {
        None
    };
    let mut buttons: Vec<ButtonPlan> = Vec::new();
    assert(buttons_view(buttons@) =~= Seq::<ButtonPlanView>::empty());
    push_button(&mut buttons, &data.button_a_text, &data.button_a_url, add_button_a);
    push_button(&mut buttons, &data.button_b_text, &data.button_b_url, add_button_b);
    let buttons = if buttons.len() > 0 {
        Some(buttons)
    } else {
        None
    };
    ActivityPlan {
        state: copy_text(&data.state_value),
        details: copy_text(&data.details_value),
        assets,
        buttons,
    }
}

/// What `url::Url::parse` makes of a text: whether it is an absolute URL.
pub uninterp spec fn url_parses(text: Seq<char>) -> bool;

/// Calls `url::Url::parse` and reports whether it returned `Ok`; the contract
/// ties the answer to the text through `url_parses` and claims nothing else
/// of the URL grammar.
#[verifier::external_body]
fn url_accepts(text: &str) -> (ok: bool)
    ensures
        ok == url_parses(text@),
{
    url::Url::parse(text).is_ok()
}

/// The number of bytes that a text takes in UTF-8.
pub open spec fn byte_len(s: Seq<char>) -> nat {
    vstd::utf8::encode_utf8(s).len()
}

/// The outcome of checking a link button.
#[derive(Clone, Copy, Debug, PartialEq, Eq, Structural)]
pub enum ButtonCheck {
    /// Its text or its link is missing.
    Incomplete,
    /// Its text or its link is at most one byte long.
    TooShort,
    /// Text and link are long enough, but the link is not a URL.
    BadUrl,
    /// The button can be published.
    Valid,
}

pub open spec fn spec_button_check(text: Option<Seq<char>>, url: Option<Seq<char>>) -> ButtonCheck {
    match (text, url) {
        (Some(t), Some(u)) => {
            if byte_len(u) > 1 && byte_len(t) > 1 {
                if url_parses(u) {
                    ButtonCheck::Valid
                } else {
                    ButtonCheck::BadUrl
                }
            } else {
                ButtonCheck::TooShort
            }
        },
        _ => ButtonCheck::Incomplete,
    }
}

/// Checks a link button: both parts present, each longer than one byte, the
/// link a URL.
pub fn check_button(text: &Option<String>, url: &Option<String>) -> (c: ButtonCheck)
    ensures
        c == spec_button_check(opt_view(*text), opt_view(*url)),
{
    match (text, url) {
        (Some(t), Some(u)) => {
            let ulen = u.as_str().as_bytes().len();
            let tlen = t.as_str().as_bytes().len();
            if ulen > 1 && tlen > 1 {
                if url_accepts(u.as_str()) {
                    ButtonCheck::Valid
                } else {
                    ButtonCheck::BadUrl
                }
            } else {
                ButtonCheck::TooShort
            }
        },
        _ => ButtonCheck::Incomplete,
    }
}

/// A published activity never shows a button that failed its check or lacks a
/// part, shows each passing button with the text and link entered, A before B,
/// and leaves out empty groups.
pub proof fn lemma_plan_buttons(p: PayloadView, add_a: bool, add_b: bool)
    ensures
        ({
            let plan = spec_activity_plan(p, add_a, add_b);
            &&& plan.buttons is Some ==> plan.buttons->0.len() > 0
            &&& plan.buttons is None <==> !(add_a && p.button_a_text is Some
                && p.button_a_url is Some) && !(add_b && p.button_b_text is Some
                && p.button_b_url is Some)
            &&& (add_a && p.button_a_text is Some && p.button_a_url is Some) ==> plan.buttons->0[0]
                == (ButtonPlanView { label: p.button_a_text->0, url: p.button_a_url->0 })
            &&& plan.assets is None <==> (p.small_image_key is None && p.small_image_text is None
                && p.large_image_key is None && p.large_image_text is None)
        }),
{
}

} // verus!
