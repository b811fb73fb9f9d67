//! What holds of the validator as a whole, proved from the contracts of
//! its parts.

use vstd::prelude::*;
use crate::auth::{authenticated, authenticated_after_refresh, AuthStepView};
use crate::candidate::{
    inspected, lemma_claims_name_the_issuer, signature_holds, CandidateView,
};
use crate::claims::ClaimSetView;
use crate::error::{AuthError, RejectionReason};
use crate::issuer::{lemma_resolve_from_sound, resolve_issuer};
use crate::keys::{first_key_with_id, lemma_found_key_is_member, SigningKeyView};
use crate::token::is_well_formed;
use crate::user::{lemma_found_user_is_member, UserView};
use crate::validator::{RefreshState, ValidatorView, VerdictView};

verus! {

/// A text that is not three base64url segments is rejected as malformed
/// at the first step, whatever the cache holds: no refresh is asked for,
/// so nothing is fetched on its account.
pub proof fn law_malformed_is_rejected_offline(
    validator: ValidatorView,
    directory: Seq<UserView>,
    token: Seq<char>,
    now: int,
)
    requires
        !is_well_formed(token),
    ensures
        validator.judged(token, now) == VerdictView::Rejected(RejectionReason::Malformed),
        authenticated(validator, directory, token, now) == AuthStepView::Done(
            Err(AuthError::Rejected(RejectionReason::Malformed)),
        ),
{
}

/// A token whose key is missing from the cache, and still missing from
/// what one successful refresh of its issuer's key set brought, ends as
/// key-not-found.
pub proof fn law_key_absent_after_refresh(
    validator: ValidatorView,
    directory: Seq<UserView>,
    token: Seq<char>,
    now: int,
    issuer: int,
    fresh: Seq<SigningKeyView>,
    fetched_at: int,
)
    requires
        validator.wf(),
        validator.judged(token, now) == (VerdictView::KeyMissing { issuer }),
        first_key_with_id(fresh, inspected(token)->Ok_0.header.key_id) is None,
    ensures
        ({
            let refreshed = validator.begun(issuer).0.installed(issuer, Some(fresh), fetched_at);
            &&& refreshed.settled(token, now) == Err::<ClaimSetView, RejectionReason>(
                RejectionReason::KeyNotFound,
            )
            &&& authenticated_after_refresh(refreshed, directory, token, now) == Err::<
                UserView,
                AuthError,
            >(AuthError::Rejected(RejectionReason::KeyNotFound))
        }),
{
    let candidate = inspected(token)->Ok_0;
    lemma_resolve_from_sound(validator.issuers, candidate.issuer, 0);
    let refreshed = validator.begun(issuer).0.installed(issuer, Some(fresh), fetched_at);
    assert(refreshed.issuers == validator.issuers);
    assert(refreshed.key_sets[issuer].keys == fresh);
    assert(refreshed.refresh[issuer] == RefreshState::Idle);
}

/// A token whose key is missing from the cache ends as upstream-unavailable
/// where the one refresh of its issuer's key set failed.
pub proof fn law_failed_refresh_is_unavailable(
    validator: ValidatorView,
    token: Seq<char>,
    now: int,
    issuer: int,
    fetched_at: int,
)
    requires
        validator.wf(),
        validator.judged(token, now) == (VerdictView::KeyMissing { issuer }),
    ensures
        ({
            let refreshed = validator.begun(issuer).0.installed(issuer, None, fetched_at);
            &&& refreshed.key_sets == validator.key_sets
            &&& refreshed.settled(token, now) == Err::<ClaimSetView, RejectionReason>(
                RejectionReason::UpstreamUnavailable,
            )
        }),
{
    let candidate = inspected(token)->Ok_0;
    lemma_resolve_from_sound(validator.issuers, candidate.issuer, 0);
}

/// The premise shared by the laws on what follows the signature: the
/// token reads as `candidate`, its issuer claim resolves to `issuer`, the
/// key that its header names is cached as `key`, and its signature holds
/// under it.
pub open spec fn verifies_under(
    validator: ValidatorView,
    token: Seq<char>,
    candidate: CandidateView,
    issuer: int,
    key: SigningKeyView,
) -> bool {
    &&& inspected(token) == Ok::<CandidateView, RejectionReason>(candidate)
    &&& resolve_issuer(validator.issuers, candidate.issuer) == Some(issuer)
    &&& first_key_with_id(validator.key_sets[issuer].keys, candidate.header.key_id) == Some(key)
    &&& signature_holds(token, candidate.header, key)
}

/// Claims are accepted only from a token whose signature holds under a
/// key that belongs to the key set of the issuer that the claims
/// themselves name, and only while they meet that issuer's rules.
pub proof fn law_accepted_claims_are_verified(
    validator: ValidatorView,
    token: Seq<char>,
    now: int,
    claims: ClaimSetView,
)
    requires
        validator.wf(),
        validator.judged(token, now) == VerdictView::Accepted(claims),
    ensures
        exists|issuer: int, key: SigningKeyView|
            {
                &&& 0 <= issuer < validator.issuers.len()
                &&& validator.issuers[issuer].name == claims.issuer
                &&& validator.issuers[issuer].expected_audience == claims.audience
                &&& #[trigger] validator.key_sets[issuer].keys.contains(key)
                &&& inspected(token) is Ok
                &&& inspected(token)->Ok_0.claims == Some(claims)
                &&& key.key_id == Some(inspected(token)->Ok_0.header.key_id)
                &&& signature_holds(token, inspected(token)->Ok_0.header, key)
                &&& claims.not_before - validator.skew <= now <= claims.expiry + validator.skew
            },
{
    let candidate = inspected(token)->Ok_0;
    lemma_claims_name_the_issuer(token);
    lemma_resolve_from_sound(validator.issuers, candidate.issuer, 0);
    let issuer = resolve_issuer(validator.issuers, candidate.issuer)->Some_0;
    lemma_found_key_is_member(validator.key_sets[issuer].keys, candidate.header.key_id);
    let key = first_key_with_id(validator.key_sets[issuer].keys, candidate.header.key_id)->Some_0;
    assert(validator.key_sets[issuer].keys.contains(key));
}

/// A user comes out of an authentication only where the token's claims
/// were accepted and the directory holds that user under the identity
/// that the claims carry.
pub proof fn law_user_comes_from_verified_claims(
    validator: ValidatorView,
    directory: Seq<UserView>,
    token: Seq<char>,
    now: int,
    user: UserView,
)
    requires
        authenticated(validator, directory, token, now) == AuthStepView::Done(Ok(user))
            || authenticated_after_refresh(validator, directory, token, now) == Ok::<
            UserView,
            AuthError,
        >(user),
    ensures
        validator.judged(token, now) is Accepted,
        directory.contains(user),
        user.upn == validator.judged(token, now)->Accepted_0.identity,
{
    let claims = validator.judged(token, now)->Accepted_0;
    lemma_found_user_is_member(directory, claims.identity);
}

/// A token whose signature verifies but whose audience differs from the
/// audience configured for its issuer is rejected for the audience,
/// whatever its validity period.
pub proof fn law_audience_mismatch(
    validator: ValidatorView,
    token: Seq<char>,
    now: int,
    candidate: CandidateView,
    issuer: int,
    key: SigningKeyView,
)
    requires
        verifies_under(validator, token, candidate, issuer, key),
        candidate.claims is Some,
        candidate.claims->Some_0.audience != validator.issuers[issuer].expected_audience,
    ensures
        validator.judged(token, now) == VerdictView::Rejected(RejectionReason::AudienceMismatch),
{
}

/// A token whose signature verifies and whose audience is right is
/// accepted exactly from its not-before time minus the skew up to its
/// expiry plus the skew, both bounds included. Later it is expired;
/// earlier it is not yet valid, unless it is expired as well, which is
/// judged first.
pub proof fn law_validity_period(
    validator: ValidatorView,
    token: Seq<char>,
    now: int,
    candidate: CandidateView,
    issuer: int,
    key: SigningKeyView,
)
    requires
        verifies_under(validator, token, candidate, issuer, key),
        candidate.claims is Some,
        candidate.claims->Some_0.audience == validator.issuers[issuer].expected_audience,
    ensures
        ({
            let claims = candidate.claims->Some_0;
            &&& now > claims.expiry + validator.skew ==> validator.judged(token, now)
                == VerdictView::Rejected(RejectionReason::Expired)
            &&& now <= claims.expiry + validator.skew && now + validator.skew < claims.not_before
                ==> validator.judged(token, now) == VerdictView::Rejected(
                RejectionReason::NotYetValid,
            )
            &&& claims.not_before - validator.skew <= now <= claims.expiry + validator.skew
                ==> validator.judged(token, now) == VerdictView::Accepted(claims)
        }),
{
}

/// Issuer, key and signature are judged on the header and the issuer
/// claim alone, before any other claim is asked for. A token whose payload
/// names an issuer but lacks another required claim is therefore turned
/// away for an unknown issuer, sent to a refresh for a missing key, or
/// turned away for a bad signature, exactly as a token with every claim
/// would be. Only where all three pass is it malformed.
pub proof fn law_other_claims_are_asked_for_last(
    validator: ValidatorView,
    token: Seq<char>,
    now: int,
    candidate: CandidateView,
)
    requires
        inspected(token) == Ok::<CandidateView, RejectionReason>(candidate),
    ensures
        resolve_issuer(validator.issuers, candidate.issuer) is None ==> validator.judged(token, now)
            == VerdictView::Rejected(RejectionReason::UnknownIssuer),
        resolve_issuer(validator.issuers, candidate.issuer) matches Some(issuer) ==> ({
            let found = first_key_with_id(
                validator.key_sets[issuer].keys,
                candidate.header.key_id,
            );
            &&& found is None ==> validator.judged(token, now) == (VerdictView::KeyMissing {
                issuer,
            })
            &&& found matches Some(key) ==> {
                &&& !signature_holds(token, candidate.header, key) ==> validator.judged(token, now)
                    == VerdictView::Rejected(RejectionReason::BadSignature)
                &&& signature_holds(token, candidate.header, key) && candidate.claims is None
                    ==> validator.judged(token, now) == VerdictView::Rejected(
                    RejectionReason::Malformed,
                )
            }
        }),
{
}

/// Once a token has been authenticated, be it at once or after a refresh,
/// authenticating it again against the same cache gives the same user at
/// the first step: the second call asks for no refresh.
pub proof fn law_second_call_is_served_from_cache(
    validator: ValidatorView,
    directory: Seq<UserView>,
    token: Seq<char>,
    now: int,
)
    requires
        authenticated_after_refresh(validator, directory, token, now) is Ok,
    ensures
        authenticated(validator, directory, token, now) == AuthStepView::Done(
            authenticated_after_refresh(validator, directory, token, now),
        ),
{
}

/// How many fetches are started when `callers` callers in a row ask for a
/// refresh of one issuer's key set and none of the fetches has ended yet.
pub open spec fn fetches_started(validator: ValidatorView, issuer: int, callers: nat) -> nat
    decreases callers,
{
    if callers == 0 {
        0
    } else {
        let (next, started) = validator.begun(issuer);
        (if started {
            1nat
        } else {
            0nat
        }) + fetches_started(next, issuer, (callers - 1) as nat)
    }
}

/// The state after `callers` callers in a row asked for a refresh of one
/// issuer's key set.
pub open spec fn after_callers(validator: ValidatorView, issuer: int, callers: nat) -> ValidatorView
    decreases callers,
{
    if callers == 0 {
        validator
    } else {
        after_callers(validator.begun(issuer).0, issuer, (callers - 1) as nat)
    }
}

/// While a fetch for an issuer is outstanding, no caller starts another,
/// and asking changes nothing.
pub proof fn lemma_no_fetch_while_in_flight(validator: ValidatorView, issuer: int, callers: nat)
    requires
        0 <= issuer < validator.refresh.len(),
        validator.refresh[issuer] == RefreshState::InFlight,
    ensures
        fetches_started(validator, issuer, callers) == 0,
        after_callers(validator, issuer, callers) == validator,
    decreases callers,
{
    if callers > 0 {
        lemma_no_fetch_while_in_flight(validator, issuer, (callers - 1) as nat);
    }
}

/// However many callers miss on the same issuer before its fetch has
/// ended, exactly one fetch is started, and the cache is left as the first
/// caller alone would have left it. All of them then read the outcome of
/// that one fetch from the same cache.
pub proof fn law_single_flight(validator: ValidatorView, issuer: int, callers: nat)
    requires
        0 <= issuer < validator.refresh.len(),
        validator.refresh[issuer] != RefreshState::InFlight,
        callers >= 1,
    ensures
        fetches_started(validator, issuer, callers) == 1,
        after_callers(validator, issuer, callers) == validator.begun(issuer).0,
{
    lemma_no_fetch_while_in_flight(validator.begun(issuer).0, issuer, (callers - 1) as nat);
}

/// A refresh replaces the key set of its issuer as a whole, by exactly
/// the keys that were fetched and by nothing of what was cached, and
/// touches no other issuer's key set. A failed refresh touches none at
/// all.
pub proof fn law_refresh_replaces_whole_set(
    validator: ValidatorView,
    issuer: int,
    keys: Option<Seq<SigningKeyView>>,
    fetched_at: int,
)
    requires
        validator.wf(),
        0 <= issuer < validator.issuers.len(),
    ensures
        ({
            let refreshed = validator.installed(issuer, keys, fetched_at);
            &&& forall|other: int|
                0 <= other < validator.key_sets.len() && other != issuer
                    ==> #[trigger] refreshed.key_sets[other] == validator.key_sets[other]
            &&& keys is None ==> refreshed.key_sets == validator.key_sets
            &&& keys matches Some(fresh) ==> refreshed.key_sets[issuer].keys == fresh
            &&& refreshed.refresh[issuer] != RefreshState::InFlight
        }),
{
}

} // verus!
