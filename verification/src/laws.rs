//! Properties of the editor that span several messages.

use vstd::prelude::*;
use crate::client_id::spec_is_valid_client_id;
use crate::editor::{
    can_start, no_button_a_note, no_button_b_note, not_running_note, spec_refresh, spec_update, start_warnings, ActionView,
    AppStateView, MessageView,
};
use crate::presence::{
    spec_activity_plan, spec_button_check, ButtonCheck, ButtonPlanView, PayloadView,
};

verus! {

pub open spec fn publishes(a: Seq<ActionView>) -> bool {
    exists|i: int| 0 <= i < a.len() && #[trigger] a[i] is Publish
}

pub open spec fn disconnects(a: Seq<ActionView>) -> bool {
    exists|i: int| 0 <= i < a.len() && #[trigger] a[i] is Disconnect
}

pub open spec fn is_start_or_stop(m: MessageView) -> bool {
    m is StartRpcServer || m is StopRpcServer
}

proof fn lemma_warnings_only_notify(s: AppStateView)
    ensures
        forall|i: int|
            0 <= i < start_warnings(s).len() ==> #[trigger] start_warnings(s)[i] is Notify,
{
}

/// Publishing is asked for only by a start request, only when not already
/// publishing and the id passed its check, and the editor is publishing
/// afterwards.
pub proof fn lemma_publish_needs_checked_id(s: AppStateView, m: MessageView)
    ensures
        publishes(spec_update(s, m).1) ==> {
            &&& m is StartRpcServer
            &&& s.server_status != Some(true)
            &&& s.client_id_valid
            &&& spec_update(s, m).0.server_status == Some(true)
        },
{
    lemma_warnings_only_notify(s);
    if publishes(spec_update(s, m).1) {
        let a = spec_update(s, m).1;
        let i = choose|i: int| 0 <= i < a.len() && #[trigger] a[i] is Publish;
        if !(m is StartRpcServer) {
            assert(false);
        }
        if !(can_start(s) && s.client_id_valid) {
            let w = start_warnings(s);
            if i < w.len() {
                assert(a[i] == w[i]);
            }
            assert(false);
        }
    }
}

/// Of two start requests in a row, the second never publishes: either the
/// first started publishing, or nothing allows a start.
pub proof fn lemma_no_second_publish(s: AppStateView)
    ensures
        !publishes(
            spec_update(
                spec_update(s, MessageView::StartRpcServer).0,
                MessageView::StartRpcServer,
            ).1,
        ),
{
    let s1 = spec_update(s, MessageView::StartRpcServer).0;
    lemma_publish_needs_checked_id(s, MessageView::StartRpcServer);
    lemma_publish_needs_checked_id(s1, MessageView::StartRpcServer);
}

/// Closing the connection is asked for only by a stop request while
/// publishing, and the editor has stopped afterwards.
pub proof fn lemma_disconnect_only_while_publishing(s: AppStateView, m: MessageView)
    ensures
        disconnects(spec_update(s, m).1) ==> {
            &&& m is StopRpcServer
            &&& s.server_status == Some(true)
            &&& spec_update(s, m).0.server_status == Some(false)
        },
{
    lemma_warnings_only_notify(s);
    if disconnects(spec_update(s, m).1) {
        let a = spec_update(s, m).1;
        let i = choose|i: int| 0 <= i < a.len() && #[trigger] a[i] is Disconnect;
        if m is StartRpcServer {
            let w = start_warnings(s);
            if i < w.len() {
                assert(a[i] == w[i]);
            }
        }
    }
}

/// Only start and stop requests change whether the editor is publishing.
pub proof fn lemma_status_only_by_start_stop(s: AppStateView, m: MessageView)
    requires
        !is_start_or_stop(m),
    ensures
        spec_update(s, m).0.server_status == s.server_status,
        !publishes(spec_update(s, m).1),
        !disconnects(spec_update(s, m).1),
{
    lemma_publish_needs_checked_id(s, m);
    lemma_disconnect_only_while_publishing(s, m);
}

/// A start that publishes, followed by a stop, closes the connection and
/// leaves the editor stopped.
pub proof fn lemma_start_then_stop(s: AppStateView)
    requires
        s.client_id_valid,
        s.server_status != Some(true),
    ensures
        ({
            let s1 = spec_update(s, MessageView::StartRpcServer).0;
            let (s2, a2) = spec_update(s1, MessageView::StopRpcServer);
            &&& publishes(spec_update(s, MessageView::StartRpcServer).1)
            &&& s2.server_status == Some(false)
            &&& a2 == seq![ActionView::Disconnect]
            &&& s2 == AppStateView { server_status: Some(false), ..s }
        }),
{
    let a = spec_update(s, MessageView::StartRpcServer).1;
    let k = start_warnings(s).len() as int;
    assert(a[k] is Publish);
}

/// Checking the id records its verdict, and asks to talk to Discord as that id
/// exactly when it passed.
pub proof fn lemma_validation_records_verdict(s: AppStateView)
    ensures
        ({
            let (s1, a) = spec_update(s, MessageView::ValidateClientId);
            let ok = spec_is_valid_client_id(vstd::utf8::encode_utf8(s.client_id));
            &&& s1.client_id_valid == ok
            &&& s1.client_id_status == Some(ok)
            &&& (ok <==> a.len() > 0 && a[0] == ActionView::UseClient(s.client_id))
            &&& s1.server_status == s.server_status
            &&& s1.data == s.data
        }),
{
}

/// Only a check of the id changes whether the id counts as checked.
pub proof fn lemma_verdict_only_by_validation(s: AppStateView, m: MessageView)
    requires
        !(m is ValidateClientId),
    ensures
        spec_update(s, m).0.client_id_valid == s.client_id_valid,
        spec_update(s, m).0.client_id_status == s.client_id_status,
{
}

/// What is typed into the state and details fields is what is published.
pub proof fn lemma_typed_text_is_published(s: AppStateView, state: Seq<char>, details: Seq<char>)
    requires
        s.client_id_valid,
        s.server_status != Some(true),
    ensures
        ({
            let s1 = spec_update(s, MessageView::RpcDataStateUpdate(state)).0;
            let s2 = spec_update(s1, MessageView::RpcDataDetailsUpdate(details)).0;
            let a = spec_update(s2, MessageView::StartRpcServer).1;
            let plan = spec_activity_plan(s2.data, s2.button_a_valid, s2.button_b_valid);
            &&& plan.state == Some(state)
            &&& plan.details == Some(details)
            &&& a[start_warnings(s2).len() as int] == ActionView::Publish(plan)
        }),
{
}

/// Showing or hiding an optional section empties its fields, with one
/// exception kept from the tool's behaviour: hiding button A empties the
/// fields of button B and leaves those of button A.
pub proof fn lemma_toggles_clear_fields(s: AppStateView)
    ensures
        spec_update(s, MessageView::SmallImgShowUpdate).0.data.small_image_key is None,
        spec_update(s, MessageView::SmallImgShowUpdate).0.data.small_image_text is None,
        spec_update(s, MessageView::SmallImgHideUpdate).0.data.small_image_key is None,
        spec_update(s, MessageView::SmallImgHideUpdate).0.data.small_image_text is None,
        spec_update(s, MessageView::LargeImgShowUpdate).0.data.large_image_key is None,
        spec_update(s, MessageView::LargeImgShowUpdate).0.data.large_image_text is None,
        spec_update(s, MessageView::LargeImgHideUpdate).0.data.large_image_key is None,
        spec_update(s, MessageView::LargeImgHideUpdate).0.data.large_image_text is None,
        spec_update(s, MessageView::ButtonAShowUpdate).0.data.button_a_text is None,
        spec_update(s, MessageView::ButtonAShowUpdate).0.data.button_a_url is None,
        spec_update(s, MessageView::ButtonBShowUpdate).0.data.button_b_text is None,
        spec_update(s, MessageView::ButtonBShowUpdate).0.data.button_b_url is None,
        spec_update(s, MessageView::ButtonBHideUpdate).0.data.button_b_text is None,
        spec_update(s, MessageView::ButtonBHideUpdate).0.data.button_b_url is None,
        spec_update(s, MessageView::ButtonAHideUpdate).0.data.button_b_text is None,
        spec_update(s, MessageView::ButtonAHideUpdate).0.data.button_b_url is None,
        spec_update(s, MessageView::ButtonAHideUpdate).0.data.button_a_text == s.data.button_a_text,
        spec_update(s, MessageView::ButtonAHideUpdate).0.data.button_a_url == s.data.button_a_url,
{
}

/// Once the window has been drawn, a start publishes button A only if it
/// passed its check, and then with the text and link entered.
pub proof fn lemma_published_button_passed_check(s: AppStateView)
    requires
        s.client_id_valid,
        s.server_status != Some(true),
    ensures
        ({
            let r = spec_refresh(s);
            let plan = spec_activity_plan(r.data, r.button_a_valid, r.button_b_valid);
            &&& plan.buttons is Some && plan.buttons->0[0] == (ButtonPlanView {
                label: s.data.button_a_text.unwrap_or(Seq::empty()),
                url: s.data.button_a_url.unwrap_or(Seq::empty()),
            }) && s.data.button_a_text is Some && s.data.button_a_url is Some
                <== spec_button_check(s.data.button_a_text, s.data.button_a_url)
                == ButtonCheck::Valid
            &&& spec_button_check(s.data.button_a_text, s.data.button_a_url) != ButtonCheck::Valid
                && spec_button_check(s.data.button_b_text, s.data.button_b_url)
                != ButtonCheck::Valid ==> plan.buttons is None
            &&& publishes(spec_update(r, MessageView::StartRpcServer).1)
        }),
{
    let r = spec_refresh(s);
    let a = spec_update(r, MessageView::StartRpcServer).1;
    assert(a[start_warnings(r).len() as int] is Publish);
}


/// The published activity carries each entered field in its own place: state
/// and details as typed, and, when images are published, each image field
/// equal to the field entered for it, whatever the other fields hold.
pub proof fn lemma_plan_fields_in_place(p: PayloadView, add_a: bool, add_b: bool)
    ensures
        ({
            let plan = spec_activity_plan(p, add_a, add_b);
            &&& plan.state == p.state_value
            &&& plan.details == p.details_value
            &&& plan.assets is Some ==> {
                &&& plan.assets->0.small_image == p.small_image_key
                &&& plan.assets->0.small_text == p.small_image_text
                &&& plan.assets->0.large_image == p.large_image_key
                &&& plan.assets->0.large_text == p.large_image_text
            }
            &&& (p.small_image_key is Some || p.small_image_text is Some
                || p.large_image_key is Some || p.large_image_text is Some) ==> plan.assets is Some
        }),
{
}

/// Drawing the window records, for each button, exactly whether that button's
/// own text and link pass the check, and changes nothing else.
pub proof fn lemma_refresh_records_own_checks(s: AppStateView)
    ensures
        spec_refresh(s).button_a_valid == (spec_button_check(s.data.button_a_text, s.data.button_a_url)
            == ButtonCheck::Valid),
        spec_refresh(s).button_b_valid == (spec_button_check(s.data.button_b_text, s.data.button_b_url)
            == ButtonCheck::Valid),
        spec_refresh(s) == (AppStateView {
            button_a_valid: spec_refresh(s).button_a_valid,
            button_b_valid: spec_refresh(s).button_b_valid,
            ..s
        }),
{
}

/// The verdict on one button does not depend on the fields of the other.
pub proof fn lemma_refresh_buttons_independent(s: AppStateView, t: AppStateView)
    ensures
        (s.data.button_b_text == t.data.button_b_text && s.data.button_b_url == t.data.button_b_url)
            ==> spec_refresh(s).button_b_valid == spec_refresh(t).button_b_valid,
        (s.data.button_a_text == t.data.button_a_text && s.data.button_a_url == t.data.button_a_url)
            ==> spec_refresh(s).button_a_valid == spec_refresh(t).button_a_valid,
{
}

/// Every field edit sets its own field of the activity to the text sent and
/// leaves everything else, state and other fields alike, as it was, with no
/// outside work.
pub proof fn lemma_edits_set_only_their_field(s: AppStateView, v: Seq<char>)
    ensures
        spec_update(s, MessageView::RpcDataStateUpdate(v)) == (
            AppStateView { data: PayloadView { state_value: Some(v), ..s.data }, ..s },
            Seq::<ActionView>::empty(),
        ),
        spec_update(s, MessageView::RpcDataDetailsUpdate(v)) == (
            AppStateView { data: PayloadView { details_value: Some(v), ..s.data }, ..s },
            Seq::<ActionView>::empty(),
        ),
        spec_update(s, MessageView::RpcDataSmallImageUpdate(v)) == (
            AppStateView { data: PayloadView { small_image_key: Some(v), ..s.data }, ..s },
            Seq::<ActionView>::empty(),
        ),
        spec_update(s, MessageView::RpcDataSmallTextUpdate(v)) == (
            AppStateView { data: PayloadView { small_image_text: Some(v), ..s.data }, ..s },
            Seq::<ActionView>::empty(),
        ),
        spec_update(s, MessageView::RpcDataLargeImageUpdate(v)) == (
            AppStateView { data: PayloadView { large_image_key: Some(v), ..s.data }, ..s },
            Seq::<ActionView>::empty(),
        ),
        spec_update(s, MessageView::RpcDataLargeTextUpdate(v)) == (
            AppStateView { data: PayloadView { large_image_text: Some(v), ..s.data }, ..s },
            Seq::<ActionView>::empty(),
        ),
        spec_update(s, MessageView::RpcDataLargeButtonATextUpdate(v)) == (
            AppStateView { data: PayloadView { button_a_text: Some(v), ..s.data }, ..s },
            Seq::<ActionView>::empty(),
        ),
        spec_update(s, MessageView::RpcDataLargeButtonAUrlUpdate(v)) == (
            AppStateView { data: PayloadView { button_a_url: Some(v), ..s.data }, ..s },
            Seq::<ActionView>::empty(),
        ),
        spec_update(s, MessageView::RpcDataLargeButtonBTextUpdate(v)) == (
            AppStateView { data: PayloadView { button_b_text: Some(v), ..s.data }, ..s },
            Seq::<ActionView>::empty(),
        ),
        spec_update(s, MessageView::RpcDataLargeButtonBUrlUpdate(v)) == (
            AppStateView { data: PayloadView { button_b_url: Some(v), ..s.data }, ..s },
            Seq::<ActionView>::empty(),
        ),
        spec_update(s, MessageView::ClientIdInputChanged(v)) == (
            AppStateView { client_id: v, ..s },
            Seq::<ActionView>::empty(),
        ),
{
}

/// Edits of the two parts of one button, or of one image, may come in either
/// order: both texts end up entered.
pub proof fn lemma_paired_edits_commute(s: AppStateView, v: Seq<char>, w: Seq<char>)
    ensures
        spec_update(spec_update(s, MessageView::RpcDataLargeButtonBUrlUpdate(v)).0,
            MessageView::RpcDataLargeButtonBTextUpdate(w)).0 == spec_update(
            spec_update(s, MessageView::RpcDataLargeButtonBTextUpdate(w)).0,
            MessageView::RpcDataLargeButtonBUrlUpdate(v),
        ).0,
        spec_update(spec_update(s, MessageView::RpcDataLargeButtonAUrlUpdate(v)).0,
            MessageView::RpcDataLargeButtonATextUpdate(w)).0 == spec_update(
            spec_update(s, MessageView::RpcDataLargeButtonATextUpdate(w)).0,
            MessageView::RpcDataLargeButtonAUrlUpdate(v),
        ).0,
        spec_update(spec_update(s, MessageView::RpcDataSmallImageUpdate(v)).0,
            MessageView::RpcDataSmallTextUpdate(w)).0 == spec_update(
            spec_update(s, MessageView::RpcDataSmallTextUpdate(w)).0,
            MessageView::RpcDataSmallImageUpdate(v),
        ).0,
        spec_update(spec_update(s, MessageView::RpcDataLargeImageUpdate(v)).0,
            MessageView::RpcDataLargeTextUpdate(w)).0 == spec_update(
            spec_update(s, MessageView::RpcDataLargeTextUpdate(w)).0,
            MessageView::RpcDataLargeImageUpdate(v),
        ).0,
        ({
            let b = spec_update(
                spec_update(s, MessageView::RpcDataLargeButtonBUrlUpdate(v)).0,
                MessageView::RpcDataLargeButtonBTextUpdate(w),
            ).0;
            b.data.button_b_url == Some(v) && b.data.button_b_text == Some(w)
        }),
{
}

/// A show message makes its section shown and a hide message hidden; neither
/// changes the other sections' flags, the checks, the id or whether the editor
/// is publishing, and neither asks for outside work.
pub proof fn lemma_toggles_set_their_flag(s: AppStateView)
    ensures
        ({
            let t = spec_update(s, MessageView::SmallImgShowUpdate);
            &&& t.0.small_image_show
            &&& t.1 == Seq::<ActionView>::empty()
            &&& t.0 == AppStateView { small_image_show: true, data: t.0.data, ..s }
        }),
        ({
            let t = spec_update(s, MessageView::SmallImgHideUpdate);
            &&& !t.0.small_image_show
            &&& t.1 == Seq::<ActionView>::empty()
            &&& t.0 == AppStateView { small_image_show: false, data: t.0.data, ..s }
        }),
        ({
            let t = spec_update(s, MessageView::LargeImgShowUpdate);
            &&& t.0.large_image_show
            &&& t.1 == Seq::<ActionView>::empty()
            &&& t.0 == AppStateView { large_image_show: true, data: t.0.data, ..s }
        }),
        ({
            let t = spec_update(s, MessageView::LargeImgHideUpdate);
            &&& !t.0.large_image_show
            &&& t.1 == Seq::<ActionView>::empty()
            &&& t.0 == AppStateView { large_image_show: false, data: t.0.data, ..s }
        }),
        ({
            let t = spec_update(s, MessageView::ButtonAShowUpdate);
            &&& t.0.button_a_show
            &&& t.1 == Seq::<ActionView>::empty()
            &&& t.0 == AppStateView { button_a_show: true, data: t.0.data, ..s }
        }),
        ({
            let t = spec_update(s, MessageView::ButtonAHideUpdate);
            &&& !t.0.button_a_show
            &&& t.1 == Seq::<ActionView>::empty()
            &&& t.0 == AppStateView { button_a_show: false, data: t.0.data, ..s }
        }),
        ({
            let t = spec_update(s, MessageView::ButtonBShowUpdate);
            &&& t.0.button_b_show
            &&& t.1 == Seq::<ActionView>::empty()
            &&& t.0 == AppStateView { button_b_show: true, data: t.0.data, ..s }
        }),
        ({
            let t = spec_update(s, MessageView::ButtonBHideUpdate);
            &&& !t.0.button_b_show
            &&& t.1 == Seq::<ActionView>::empty()
            &&& t.0 == AppStateView { button_b_show: false, data: t.0.data, ..s }
        }),
{
}

/// A stop request while publishing always closes the connection and stops,
/// whatever the id and its verdict; otherwise it changes nothing and says that
/// nothing is running.
pub proof fn lemma_stop_while_publishing(s: AppStateView)
    ensures
        s.server_status == Some(true) ==> spec_update(s, MessageView::StopRpcServer) == (
            AppStateView { server_status: Some(false), ..s },
            seq![ActionView::Disconnect],
        ),
        s.server_status != Some(true) ==> spec_update(s, MessageView::StopRpcServer) == (
            s,
            seq![ActionView::Notify(not_running_note())],
        ),
{
}

/// Checking a different id while publishing does not keep the editor from
/// stopping.
pub proof fn lemma_stop_after_revalidation(s: AppStateView, id: Seq<char>)
    requires
        s.server_status == Some(true),
    ensures
        ({
            let s1 = spec_update(s, MessageView::ClientIdInputChanged(id)).0;
            let s2 = spec_update(s1, MessageView::ValidateClientId).0;
            let (s3, a3) = spec_update(s2, MessageView::StopRpcServer);
            &&& s3.server_status == Some(false)
            &&& a3 == seq![ActionView::Disconnect]
        }),
{
}

/// A start request changes nothing but the publishing status; when it
/// publishes, what it publishes is the activity built from the fields with the
/// buttons' recorded verdicts, and it first warns about each shown button that
/// failed its check, A before B.
pub proof fn lemma_start_frame(s: AppStateView)
    ensures
        ({
            let (s1, a) = spec_update(s, MessageView::StartRpcServer);
            let w = start_warnings(s);
            &&& s1 == AppStateView { server_status: s1.server_status, ..s }
            &&& a.subrange(0, w.len() as int) == w
            &&& (w.len() > 0 && w[0] == ActionView::Notify(no_button_a_note())) <== (
            !s.button_a_valid && s.button_a_show)
            &&& (w.len() > 0 && w[w.len() - 1] == ActionView::Notify(no_button_b_note())) <== (
            !s.button_b_valid && s.button_b_show)
            &&& w.len() == (if !s.button_a_valid && s.button_a_show { 1int } else { 0 }) + (if !s.button_b_valid
                && s.button_b_show { 1int } else { 0 })
            &&& (s.client_id_valid && s.server_status != Some(true)) ==> {
                &&& s1.server_status == Some(true)
                &&& a[w.len() as int] == ActionView::Publish(
                    spec_activity_plan(s.data, s.button_a_valid, s.button_b_valid),
                )
            }
            &&& !(s.client_id_valid && s.server_status != Some(true)) ==> s1 == s
        }),
{
}

/// Checking the id changes only the verdict and its record.
pub proof fn lemma_validation_frame(s: AppStateView)
    ensures
        ({
            let ok = spec_is_valid_client_id(vstd::utf8::encode_utf8(s.client_id));
            spec_update(s, MessageView::ValidateClientId).0 == AppStateView {
                client_id_valid: ok,
                client_id_status: Some(ok),
                ..s
            }
        }),
{
}

} // verus!
