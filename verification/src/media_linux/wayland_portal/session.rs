//! What a portal session decides: how its failures count, which cursor mode it
//! asks for, and which stream it takes.

use vstd::prelude::*;
use crate::text::{chars_of, contains_text, find_chars, lowered, lowered_chars, stands_at};

verus! {

/// An error of the portal bindings.
#[verifier::external_type_specification]
#[verifier::external_body]
pub struct ExAshpdError(ashpd::Error);

/// Why a portal session failed.
#[derive(Debug)]
pub enum WaylandPortalError {
    Ashpd(String),
    UserCancelled,
    /// The kept token is of no use any more.
    RestoreTokenRejected(String),
    NoStreams,
}

impl WaylandPortalError {
    pub open spec fn message(self) -> Seq<char> {
        match self {
            WaylandPortalError::Ashpd(why) => "ashpd portal error: "@ + why@,
            WaylandPortalError::UserCancelled => "user cancelled portal authorization"@,
            WaylandPortalError::RestoreTokenRejected(why) => {
                "restore token rejected by compositor: "@ + why@
            },
            WaylandPortalError::NoStreams => "portal returned no PipeWire streams"@,
        }
    }

    pub fn to_string(&self) -> (r: String)
        ensures
            r@ == self.message(),
    {
        match self {
            WaylandPortalError::Ashpd(why) => {
                let mut r: String = String::from_str("ashpd portal error: ");
                r.append(why.as_str());
                r
            },
            WaylandPortalError::UserCancelled => String::from_str(
                "user cancelled portal authorization",
            ),
            WaylandPortalError::RestoreTokenRejected(why) => {
                let mut r: String = String::from_str("restore token rejected by compositor: ");
                r.append(why.as_str());
                r
            },
            WaylandPortalError::NoStreams => String::from_str(
                "portal returned no PipeWire streams",
            ),
        }
    }

    /// Whether the kept token is to be deleted.
    pub fn is_token_invalid(&self) -> (r: bool)
        ensures
            r == (self is RestoreTokenRejected),
    {
        match self {
            WaylandPortalError::RestoreTokenRejected(_) => true,
            _ => false,
        }
    }
}

/// How a failure of the bindings looks: a response or a portal that says
/// "cancelled", or anything else.
#[derive(Debug, Clone, Copy, PartialEq, Eq, Structural)]
pub enum FailureKind {
    ResponseCancelled,
    PortalCancelled,
    Other,
}

/// The variant of an error of the bindings.
pub uninterp spec fn portal_failure_kind(e: ashpd::Error) -> FailureKind;

/// Whether an error of the bindings shows the text, on some machine.
pub uninterp spec fn may_show(e: ashpd::Error, text: Seq<char>) -> bool;

/// Tells the variants of `ashpd::Error` apart. What an error is does not change, so
/// the outcome has a name.
#[verifier::external_body]
fn failure_kind(e: &ashpd::Error) -> (r: FailureKind)
    ensures
        r == portal_failure_kind(*e),
{
    match e {
        ashpd::Error::Response(ashpd::desktop::ResponseError::Cancelled) => FailureKind::ResponseCancelled,
        ashpd::Error::Portal(ashpd::PortalError::Cancelled(_)) => FailureKind::PortalCancelled,
        _ => FailureKind::Other,
    }
}

/// The text of an `ashpd::Error`: its `Display` through `ToString::to_string`. An
/// error of the system shows the system's own words, which differ between machines,
/// so it is claimed only that the error may show this text.
#[verifier::external_body]
fn failure_text(e: &ashpd::Error) -> (r: String)
    ensures
        may_show(*e, r@),
{
    e.to_string()
}

/// The failure was the user's own wish: the bindings say so, or the text speaks of
/// cancelling.
pub open spec fn cancelled(kind: FailureKind, text: Seq<char>) -> bool {
    kind != FailureKind::Other || contains_text(lowered(text), "cancel"@)
}

/// The error for a failure: a wish of the user, a token that is no longer good
/// where one was passed, or a failure of the bindings.
pub open spec fn classified(
    e: WaylandPortalError,
    kind: FailureKind,
    text: Seq<char>,
    token_was_passed: bool,
) -> bool {
    if cancelled(kind, text) {
        e is UserCancelled
    } else if token_was_passed {
        e matches WaylandPortalError::RestoreTokenRejected(why) && why@ == text
    } else {
        e matches WaylandPortalError::Ashpd(why) && why@ == text
    }
}

/// Classifies a failure by its kind and its text.
pub fn classify_failure(kind: FailureKind, text: String, token_was_passed: bool) -> (r:
    WaylandPortalError)
    ensures
        classified(r, kind, text@, token_was_passed),
{
    match kind {
        FailureKind::ResponseCancelled | FailureKind::PortalCancelled => {
            return WaylandPortalError::UserCancelled;
        },
        FailureKind::Other => {},
    }
    if find_chars(&lowered_chars(text.as_str()), &chars_of("cancel")) {
        return WaylandPortalError::UserCancelled;
    }
    if token_was_passed {
        WaylandPortalError::RestoreTokenRejected(text)
    } else {
        WaylandPortalError::Ashpd(text)
    }
}

/// Classifies an error of the bindings; `token_was_passed` says whether a kept
/// token was in play.
pub fn classify_portal_error(e: ashpd::Error, token_was_passed: bool) -> (r: WaylandPortalError)
    ensures
        exists|text: Seq<char>|
            #[trigger] may_show(e, text) && classified(
                r,
                portal_failure_kind(e),
                text,
                token_was_passed,
            ),
{
    let kind: FailureKind = failure_kind(&e);
    let text: String = failure_text(&e);
    assert(may_show(e, text@));
    classify_failure(kind, text, token_was_passed)
}

/// How the cursor gets to the viewer: drawn into the picture, or beside it.
#[derive(Debug, Clone, Copy, PartialEq, Eq, Structural)]
pub enum CursorMode {
    Embedded,
    Metadata,
}

/// The cursor mode to ask for: beside the picture wherever that is on offer.
pub fn select_cursor_mode(metadata_offered: bool) -> (r: CursorMode)
    ensures
        r == if metadata_offered {
            CursorMode::Metadata
        } else {
            CursorMode::Embedded
        },
{
    if metadata_offered {
        CursorMode::Metadata
    } else {
        CursorMode::Embedded
    }
}

/// What a started session captures.
#[derive(Debug)]
pub struct PortalStart {
    pub pipewire_node_id: u32,
    pub restore_token: Option<String>,
    pub cursor_mode: CursorMode,
}

/// The calls of a session, in their order.
#[derive(Debug, Clone, Copy, PartialEq, Eq, Structural)]
pub enum PortalCall {
    Proxy,
    CreateSession,
    SelectSources,
    Start,
    Response,
    OpenRemote,
    Close,
}

impl PortalCall {
    /// A kept token is in play from the choice of sources to the user's answer.
    pub open spec fn weighs_token(self) -> bool {
        self == PortalCall::SelectSources || self == PortalCall::Start || self
            == PortalCall::Response
    }
}

/// A session with the screen cast portal.
pub struct PortalSession;

impl PortalSession {
    /// The error for a failed call: one that weighs the token is classified, any other
    /// is a failure of the bindings.
    pub fn failure(call: PortalCall, e: ashpd::Error, token_was_passed: bool) -> (r:
        WaylandPortalError)
        ensures
            exists|text: Seq<char>|
                #[trigger] may_show(e, text) && if call.weighs_token() {
                    classified(r, portal_failure_kind(e), text, token_was_passed)
                } else {
                    r matches WaylandPortalError::Ashpd(why) && why@ == text
                },
    {
        match call {
            PortalCall::SelectSources | PortalCall::Start | PortalCall::Response => {
                classify_portal_error(e, token_was_passed)
            },
            _ => WaylandPortalError::Ashpd(failure_text(&e)),
        }
    }

    /// What the session captures: the first of the streams on offer, whose ids `nodes`
    /// holds.
    pub fn started(nodes: &[u32], restore_token: Option<String>, cursor_mode: CursorMode) -> (r:
        Result<PortalStart, WaylandPortalError>)
        ensures
            if nodes@.len() == 0 {
                r == Err::<PortalStart, WaylandPortalError>(WaylandPortalError::NoStreams)
            } else {
                r == Ok::<PortalStart, WaylandPortalError>(
                    (PortalStart { pipewire_node_id: nodes@[0], restore_token, cursor_mode }),
                )
            },
    {
        if nodes.len() == 0 {
            Err(WaylandPortalError::NoStreams)
        } else {
            Ok(PortalStart { pipewire_node_id: nodes[0], restore_token, cursor_mode })
        }
    }
}

/// A kept token is given up only where it was passed and the user did not cancel.
pub proof fn law_only_a_passed_token_is_rejected(
    e: WaylandPortalError,
    kind: FailureKind,
    text: Seq<char>,
    token_was_passed: bool,
)
    requires
        classified(e, kind, text, token_was_passed),
    ensures
        e is RestoreTokenRejected <==> token_was_passed && !cancelled(kind, text),
{
}

/// A failure is the user's own wish exactly if the bindings call it so, or its text
/// speaks of cancelling, in whatever case its letters are.
pub proof fn law_cancelling_is_heard_in_any_case(kind: FailureKind, text: Seq<char>, at: int)
    ensures
        kind is ResponseCancelled || kind is PortalCancelled ==> cancelled(kind, text),
        0 <= at && at + 6 <= text.len() && lowered(text.subrange(at, at + 6)) == "cancel"@
            ==> cancelled(kind, text),
        kind is Other && cancelled(kind, text) ==> exists|i: int|
            0 <= i && i + 6 <= text.len() && #[trigger] lowered(text.subrange(i, i + 6))
                == "cancel"@,
{
    reveal_strlit("cancel");
    assert("cancel"@.len() == 6);
    let low = lowered(text);
    if 0 <= at && at + 6 <= text.len() && lowered(text.subrange(at, at + 6)) == "cancel"@ {
        assert(low.subrange(at, at + 6) =~= lowered(text.subrange(at, at + 6)));
        assert(stands_at(low, "cancel"@, at));
    }
    if kind is Other && cancelled(kind, text) {
        let i = choose|i: int| stands_at(low, "cancel"@, i);
        assert(low.subrange(i, i + 6) =~= lowered(text.subrange(i, i + 6)));
    }
}

/// A session takes the first of the streams on offer, and fails where there is none.
pub proof fn law_the_first_stream_is_taken(
    nodes: &[u32],
    token: Option<String>,
    mode: CursorMode,
    r: Result<PortalStart, WaylandPortalError>,
)
    requires
        call_ensures(PortalSession::started, (nodes, token, mode), r),
    ensures
        r is Err <==> nodes@.len() == 0,
        r matches Err(e) ==> e is NoStreams,
        r matches Ok(s) ==> s.pipewire_node_id == nodes@.first() && s.restore_token == token
            && s.cursor_mode == mode,
{
}

/// The cursor comes beside the picture wherever that is on offer.
pub proof fn law_cursors_come_beside_the_picture(offered: bool, r: CursorMode)
    requires
        call_ensures(select_cursor_mode, (offered,), r),
    ensures
        r is Metadata <==> offered,
{
}

/// Only the choice of sources, the start and its answer weigh a kept token.
pub proof fn law_which_calls_weigh_the_token(call: PortalCall)
    ensures
        call.weighs_token() <==> !(call is Proxy) && !(call is CreateSession) && !(call
            is OpenRemote) && !(call is Close),
{
}

} // verus!
