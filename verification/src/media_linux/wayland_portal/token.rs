//! The token with which the portal lets a session go on without asking again.

use vstd::prelude::*;
use crate::text::{decimal, padded_decimal, push_decimal, push_padded};

verus! {

/// A token as it is kept between sessions; an empty one is none.
#[derive(Debug, Clone, PartialEq, Eq)]
pub struct PortalSessionToken {
    pub restore_token: String,
    /// When it was saved; for people to read.
    pub saved_at: String,
    /// Which compositor gave it; for people to read.
    pub compositor_hint: String,
}

/// Seconds and nanoseconds since the epoch as text; zero for a clock before it.
pub open spec fn time_text(since_epoch: Option<(u64, u32)>) -> Seq<char> {
    match since_epoch {
        Some((secs, nanos)) => "unix:"@ + decimal(secs as nat) + "."@ + padded_decimal(
            nanos as nat,
            9,
        ),
        None => "unix:0"@,
    }
}

fn time_string(since_epoch: Option<(u64, u32)>) -> (r: String)
    ensures
        r@ == time_text(since_epoch),
{
    match since_epoch {
        Some((secs, nanos)) => {
            let mut r: String = String::from_str("unix:");
            push_decimal(&mut r, secs);
            r.append(".");
            push_padded(&mut r, nanos as u64, 9);
            r
        },
        None => String::from_str("unix:0"),
    }
}

impl PortalSessionToken {
    /// The token, if there is one.
    pub fn token_opt(&self) -> (r: Option<&str>)
        ensures
            r is None <==> self.restore_token@.len() == 0,
            r matches Some(t) ==> t@ == self.restore_token@,
    {
        if self.restore_token.as_str().is_empty() {
            None
        } else {
            Some(self.restore_token.as_str())
        }
    }

    /// A token that was given just now; `since_epoch` holds the seconds and
    /// nanoseconds of the clock.
    pub fn with_token(
        restore_token: String,
        compositor_hint: String,
        since_epoch: Option<(u64, u32)>,
    ) -> (r: Self)
        requires
            since_epoch matches Some((secs, nanos)) ==> nanos < 1_000_000_000,
        ensures
            r.restore_token == restore_token,
            r.compositor_hint == compositor_hint,
            r.saved_at@ == time_text(since_epoch),
    {
        PortalSessionToken { restore_token, saved_at: time_string(since_epoch), compositor_hint }
    }
}

impl Default for PortalSessionToken {
    fn default() -> (r: Self)
        ensures
            r.restore_token@ == Seq::<char>::empty(),
            r.saved_at@ == Seq::<char>::empty(),
            r.compositor_hint@ == Seq::<char>::empty(),
    {
        PortalSessionToken {
            restore_token: String::new(),
            saved_at: String::new(),
            compositor_hint: String::new(),
        }
    }
}

/// What reading the token's file came to.
pub enum TokenRead {
    Parsed(PortalSessionToken),
    /// The file is not there, cannot be read, or holds something else.
    Nothing,
}

/// The token of a session: the one that was kept, or none.
pub fn token_or_default(read: TokenRead) -> (r: PortalSessionToken)
    ensures
        read matches TokenRead::Parsed(t) ==> r == t,
        read is Nothing ==> r.restore_token@.len() == 0 && r.saved_at@.len() == 0
            && r.compositor_hint@.len() == 0,
{
    match read {
        TokenRead::Parsed(t) => t,
        TokenRead::Nothing => PortalSessionToken::default(),
    }
}

/// A token that is kept is offered again, and an empty one is none.
pub proof fn law_kept_tokens_are_offered_again(
    token: String,
    hint: String,
    since_epoch: Option<(u64, u32)>,
    kept: PortalSessionToken,
    again: PortalSessionToken,
    offered: Option<&str>,
)
    requires
        since_epoch matches Some((secs, nanos)) ==> nanos < 1_000_000_000,
        call_ensures(PortalSessionToken::with_token, (token, hint, since_epoch), kept),
        call_ensures(token_or_default, (TokenRead::Parsed(kept),), again),
        call_ensures(PortalSessionToken::token_opt, (&again,), offered),
    ensures
        token@.len() > 0 ==> (offered matches Some(t) && t@ == token@),
        token@.len() == 0 ==> offered is None,
        again.compositor_hint == hint,
{
}

/// Where no token is kept, none is offered.
pub proof fn law_without_a_token_none_is_offered(r: PortalSessionToken, offered: Option<&str>)
    requires
        call_ensures(token_or_default, (TokenRead::Nothing,), r),
        call_ensures(PortalSessionToken::token_opt, (&r,), offered),
    ensures
        offered is None,
{
}

} // verus!
