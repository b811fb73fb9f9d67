//! The token validator: the issuer registry, the key-set cache with its
//! refresh bookkeeping, and the token verifier that runs against them.

use vstd::prelude::*;
use crate::candidate::{check_signature, inspect, inspected, signature_holds};
use crate::claims::{check_claims, claims_failure, ClaimSetView, VerifiedClaims};
use crate::error::RejectionReason;
use crate::issuer::{issuer_views, resolve_issuer, Issuer, IssuerRegistry, IssuerView};
use crate::jwt::{parse_key_set, parsed_key_set};
use crate::token::is_well_formed;
use crate::keys::{first_key_with_id, key_views, KeySet, KeySetView, SigningKey, SigningKeyView};

verus! {

/// Where the refresh of one issuer's key set stands.
#[derive(Debug, Clone, Copy, PartialEq, Eq, Structural)]
pub enum RefreshState {
    /// No fetch is outstanding, and the last one, if any, succeeded.
    Idle,
    /// A fetch is outstanding; whoever started it will report its outcome.
    InFlight,
    /// No fetch is outstanding, and the last one failed.
    Failed,
}

/// What a `TokenValidator` holds, as plain values: per issuer, in the
/// order of configuration, the issuer, its cached key set and the state of
/// its refresh.
pub struct ValidatorView {
    pub issuers: Seq<IssuerView>,
    pub key_sets: Seq<KeySetView>,
    pub refresh: Seq<RefreshState>,
    /// The tolerated clock skew, in seconds.
    pub skew: int,
}

impl ValidatorView {
    /// Every issuer has exactly one key set, under its own name, and one
    /// refresh state.
    pub open spec fn wf(self) -> bool {
        &&& self.key_sets.len() == self.issuers.len()
        &&& self.refresh.len() == self.issuers.len()
        &&& 0 <= self.skew <= u32::MAX
        &&& forall|i: int|
            0 <= i < self.issuers.len() ==> (#[trigger] self.key_sets[i]).issuer_name
                == self.issuers[i].name
    }

    /// The state of a validator that was just made: an empty key set for
    /// each issuer, never fetched, and no fetch outstanding.
    pub open spec fn initial(issuers: Seq<IssuerView>, skew: int) -> ValidatorView {
        ValidatorView {
            issuers,
            key_sets: Seq::new(
                issuers.len(),
                |i: int|
                    KeySetView {
                        issuer_name: issuers[i].name,
                        keys: Seq::<SigningKeyView>::empty(),
                        fetched_at: None,
                    },
            ),
            refresh: Seq::new(issuers.len(), |i: int| RefreshState::Idle),
            skew,
        }
    }

    /// The state after a caller asked to refresh the key set of `issuer`,
    /// and whether that caller is the one to fetch. Exactly the first to
    /// ask while no fetch is outstanding gets to fetch.
    pub open spec fn begun(self, issuer: int) -> (ValidatorView, bool) {
        if 0 <= issuer < self.refresh.len() && self.refresh[issuer] != RefreshState::InFlight {
            (
                ValidatorView {
                    refresh: self.refresh.update(issuer, RefreshState::InFlight),
                    ..self
                },
                true,
            )
        } else {
            (self, false)
        }
    }

    /// The state after the fetch for `issuer` ended. With keys, the
    /// issuer's key set is replaced as a whole by exactly the keys that
    /// were fetched, in their order and of whatever family; without, the
    /// key set stays as it was and the failure is noted.
    pub open spec fn installed(
        self,
        issuer: int,
        keys: Option<Seq<SigningKeyView>>,
        now: int,
    ) -> ValidatorView {
        if 0 <= issuer < self.issuers.len() {
            match keys {
                Some(fresh) => ValidatorView {
                    key_sets: self.key_sets.update(
                        issuer,
                        KeySetView {
                            issuer_name: self.issuers[issuer].name,
                            keys: fresh,
                            fetched_at: Some(now),
                        },
                    ),
                    refresh: self.refresh.update(issuer, RefreshState::Idle),
                    ..self
                },
                None => ValidatorView {
                    refresh: self.refresh.update(issuer, RefreshState::Failed),
                    ..self
                },
            }
        } else {
            self
        }
    }
}

/// What the verifier makes of a token against the keys it has at hand.
#[derive(Debug, Clone, PartialEq, Eq)]
pub enum Verdict {
    /// The token is genuine and currently valid.
    Accepted(VerifiedClaims),
    /// The token is turned away.
    Rejected(RejectionReason),
    /// The cached key set of the token's issuer has no key of the id that
    /// the header names. Nothing is decided yet: a refresh of that
    /// issuer's key set is due.
    KeyMissing { issuer: usize },
}

/// What a `Verdict` holds, as plain values.
pub enum VerdictView {
    Accepted(ClaimSetView),
    Rejected(RejectionReason),
    KeyMissing { issuer: int },
}

impl View for Verdict {
    type V = VerdictView;

    open spec fn view(&self) -> VerdictView {
        match self {
            Verdict::Accepted(claims) => VerdictView::Accepted(claims@),
            Verdict::Rejected(reason) => VerdictView::Rejected(*reason),
            Verdict::KeyMissing { issuer } => VerdictView::KeyMissing { issuer: *issuer as int },
        }
    }
}

impl ValidatorView {
    /// What the verifier makes of a token at time `now`, against the key
    /// sets as they are cached.
    ///
    /// The steps, each of which ends the run where it fails: the token is
    /// read, as far as its header and its issuer claim; the issuer claim
    /// is resolved to a trusted issuer; the key that the header names is
    /// looked up in that issuer's key set; the signature is checked
    /// against that key; the remaining claims are read, and a payload
    /// that lacks one makes the token malformed; audience and validity
    /// period are checked against the issuer and the clock.
    pub open spec fn judged(self, token: Seq<char>, now: int) -> VerdictView {
        match inspected(token) {
            Err(reason) => VerdictView::Rejected(reason),
            Ok(candidate) => match resolve_issuer(self.issuers, candidate.issuer) {
                None => VerdictView::Rejected(RejectionReason::UnknownIssuer),
                Some(issuer) => match first_key_with_id(
                    self.key_sets[issuer].keys,
                    candidate.header.key_id,
                ) {
                    None => VerdictView::KeyMissing { issuer },
                    Some(key) => if !signature_holds(token, candidate.header, key) {
                        VerdictView::Rejected(RejectionReason::BadSignature)
                    } else {
                        match candidate.claims {
                            None => VerdictView::Rejected(RejectionReason::Malformed),
                            Some(claims) => match claims_failure(
                                claims,
                                self.issuers[issuer].expected_audience,
                                now,
                                self.skew,
                            ) {
                                Some(reason) => VerdictView::Rejected(reason),
                                None => VerdictView::Accepted(claims),
                            },
                        }
                    },
                },
            },
        }
    }

    /// The final word on a token once the refresh that its verdict asked
    /// for has ended. A key that is still missing is not found, unless the
    /// refresh failed: then the issuer is unavailable.
    pub open spec fn settled(self, token: Seq<char>, now: int) -> Result<
        ClaimSetView,
        RejectionReason,
    > {
        match self.judged(token, now) {
            VerdictView::Accepted(claims) => Ok(claims),
            VerdictView::Rejected(reason) => Err(reason),
            VerdictView::KeyMissing { issuer } => if self.refresh[issuer] == RefreshState::Failed {
                Err(RejectionReason::UpstreamUnavailable)
            } else {
                Err(RejectionReason::KeyNotFound)
            },
        }
    }
}

/// The views of a list of key sets.
pub open spec fn key_set_views(sets: Seq<KeySet>) -> Seq<KeySetView> {
    sets.map_values(|s: KeySet| s@)
}

/// Validates bearer tokens against the key sets of a fixed list of trusted
/// issuers.
#[derive(Debug)]
pub struct TokenValidator {
    registry: IssuerRegistry,
    key_sets: Vec<KeySet>,
    refresh: Vec<RefreshState>,
    skew: u32,
}

impl View for TokenValidator {
    type V = ValidatorView;

    closed spec fn view(&self) -> ValidatorView {
        ValidatorView {
            issuers: self.registry@,
            key_sets: key_set_views(self.key_sets@),
            refresh: self.refresh@,
            skew: self.skew as int,
        }
    }
}

impl TokenValidator {
    /// Whether this validator is well formed. Every constructor
    /// establishes this and every method keeps it.
    pub open spec fn wf(&self) -> bool {
        self@.wf()
    }

    /// A validator for the given issuers, with an empty key set for each
    /// and no fetch outstanding. `skew` is the tolerated clock skew in
    /// seconds.
    pub fn new(issuers: Vec<Issuer>, skew: u32) -> (validator: TokenValidator)
        ensures
            validator.wf(),
            validator@ == ValidatorView::initial(issuer_views(issuers@), skew as int),
    {
        let mut key_sets: Vec<KeySet> = Vec::new();
        let mut refresh: Vec<RefreshState> = Vec::new();
        let n: usize = issuers.len();
        let mut i: usize = 0;
        while i < n
            invariant
                0 <= i <= n,
                n == issuers@.len(),
                key_sets@.len() == i,
                refresh@.len() == i,
                forall|j: int|
                    0 <= j < i ==> (#[trigger] key_sets@[j])@ == (KeySetView {
                        issuer_name: issuers@[j]@.name,
                        keys: Seq::<SigningKeyView>::empty(),
                        fetched_at: None,
                    }),
                forall|j: int| 0 <= j < i ==> #[trigger] refresh@[j] == RefreshState::Idle,
            decreases n - i,
        {
            key_sets.push(KeySet::empty(issuers[i].name.clone()));
            refresh.push(RefreshState::Idle);
            i = i + 1;
        }
        let registry = IssuerRegistry::new(issuers);
        let validator = TokenValidator { registry, key_sets, refresh, skew };
        proof {
            let initial = ValidatorView::initial(issuer_views(issuers@), skew as int);
            assert(validator@.refresh =~= initial.refresh);
            assert(validator@.key_sets =~= initial.key_sets);
        }
        validator
    }

    /// The trusted issuers, in the order of configuration.
    pub fn issuers(&self) -> (registry: &IssuerRegistry)
        ensures
            registry@ == self@.issuers,
    {
        &self.registry
    }

    /// The tolerated clock skew, in seconds.
    pub fn skew(&self) -> (skew: u32)
        ensures
            skew == self@.skew,
    {
        self.skew
    }

    /// The cached key set of the issuer at a position.
    pub fn key_set(&self, issuer: usize) -> (set: Option<&KeySet>)
        requires
            self.wf(),
        ensures
            set is Some <==> issuer < self@.issuers.len(),
            set matches Some(s) ==> s@ == self@.key_sets[issuer as int],
    {
        if issuer < self.key_sets.len() {
            Some(&self.key_sets[issuer])
        } else {
            None
        }
    }

    /// Looks a signing key up in the cache, by issuer and key identifier.
    /// Nothing is fetched: a key that the cached set does not hold is
    /// not found, and so is any key of a position that names no issuer.
    pub fn get_key(&self, issuer: usize, key_id: &str) -> (found: Option<&SigningKey>)
        requires
            self.wf(),
        ensures
            match found {
                Some(key) => issuer < self@.issuers.len() && first_key_with_id(
                    self@.key_sets[issuer as int].keys,
                    key_id@,
                ) == Some(key@),
                None => issuer >= self@.issuers.len() || first_key_with_id(
                    self@.key_sets[issuer as int].keys,
                    key_id@,
                ) is None,
            },
    {
        if issuer < self.key_sets.len() {
            self.key_sets[issuer].find(key_id)
        } else {
            None
        }
    }

    /// Where the refresh of the issuer at a position stands.
    pub fn refresh_state(&self, issuer: usize) -> (state: Option<RefreshState>)
        requires
            self.wf(),
        ensures
            state is Some <==> issuer < self@.issuers.len(),
            state matches Some(s) ==> s == self@.refresh[issuer as int],
    {
        if issuer < self.refresh.len() {
            Some(self.refresh[issuer])
        } else {
            None
        }
    }

    /// Asks to refresh the key set of an issuer after a lookup missed.
    ///
    /// The first caller to ask while no fetch is outstanding gets the
    /// issuer's metadata address and is to fetch it and report with
    /// `complete_refresh`. Every other caller gets `None`: a fetch is
    /// already on its way and its outcome will serve them too. `None` also
    /// for a position that names no issuer.
    pub fn begin_refresh(&mut self, issuer: usize) -> (address: Option<String>)
        requires
            old(self).wf(),
        ensures
            final(self).wf(),
            final(self)@ == old(self)@.begun(issuer as int).0,
            address is Some <==> old(self)@.begun(issuer as int).1,
            address matches Some(url) ==> url@ == old(self)@.issuers[issuer as int].metadata_url,
    {
        if issuer < self.refresh.len() {
            match self.refresh[issuer] {
                RefreshState::InFlight => None,
                _ => {
                    self.refresh[issuer] = RefreshState::InFlight;
                    Some(self.registry.get(issuer).metadata_url.clone())
                },
            }
        } else {
            None
        }
    }

    /// Verifies a token at time `now`, in seconds since the epoch, against
    /// the key sets as they are cached. Nothing is fetched: where the key
    /// is missing, the verdict says for which issuer.
    pub fn validate_token(&self, token: &str, now: i64) -> (verdict: Verdict)
        requires
            self.wf(),
        ensures
            verdict@ == self@.judged(token@, now as int),
            !is_well_formed(token@) ==> verdict@ == VerdictView::Rejected(
                RejectionReason::Malformed,
            ),
            verdict matches Verdict::KeyMissing { issuer } ==> issuer < self@.issuers.len(),
    {
        let candidate = match inspect(token) {
            Ok(candidate) => candidate,
            Err(reason) => {
                return Verdict::Rejected(reason);
            },
        };
        let issuer: usize = match self.registry.resolve(candidate.issuer.as_str()) {
            Some(issuer) => issuer,
            None => {
                return Verdict::Rejected(RejectionReason::UnknownIssuer);
            },
        };
        let key = match self.key_sets[issuer].find(candidate.header.key_id.as_str()) {
            Some(key) => key,
            None => {
                return Verdict::KeyMissing { issuer };
            },
        };
        if !check_signature(token, &candidate.header, key) {
            return Verdict::Rejected(RejectionReason::BadSignature);
        }
        let claims = match candidate.claims {
            Some(claims) => claims,
            None => {
                return Verdict::Rejected(RejectionReason::Malformed);
            },
        };
        let expected = self.registry.get(issuer).expected_audience.as_str();
        match check_claims(&claims, expected, now, self.skew) {
            Err(reason) => Verdict::Rejected(reason),
            Ok(_) => Verdict::Accepted(VerifiedClaims::seal(claims)),
        }
    }

    /// Verifies a token once the refresh that `validate_token` asked for
    /// has ended, whoever ran it. Nothing is fetched.
    pub fn conclude(&self, token: &str, now: i64) -> (outcome: Result<VerifiedClaims, RejectionReason>)
        requires
            self.wf(),
        ensures
            match outcome {
                Ok(claims) => self@.settled(token@, now as int) == Ok::<
                    ClaimSetView,
                    RejectionReason,
                >(claims@),
                Err(reason) => self@.settled(token@, now as int) == Err::<
                    ClaimSetView,
                    RejectionReason,
                >(reason),
            },
    {
        match self.validate_token(token, now) {
            Verdict::Accepted(claims) => Ok(claims),
            Verdict::Rejected(reason) => Err(reason),
            Verdict::KeyMissing { issuer } => match self.refresh[issuer] {
                RefreshState::Failed => Err(RejectionReason::UpstreamUnavailable),
                _ => Err(RejectionReason::KeyNotFound),
            },
        }
    }

    /// Ends the refresh of an issuer with the document that was fetched
    /// from its metadata address, or with `None` where the fetch failed.
    ///
    /// A document that is no key set counts as a failed fetch. See
    /// `install_keys` for what becomes of the cache.
    pub fn complete_refresh(&mut self, issuer: usize, body: Option<&str>, now: i64) -> (installed:
        bool)
        requires
            old(self).wf(),
        ensures
            final(self).wf(),
            final(self)@ == old(self)@.installed(
                issuer as int,
                match body {
                    Some(text) => parsed_key_set(text@),
                    None => None,
                },
                now as int,
            ),
            installed == (issuer < old(self)@.issuers.len() && body is Some && parsed_key_set(
                body.unwrap()@,
            ) is Some),
    {
        let keys = match body {
            Some(text) => parse_key_set(text),
            None => None,
        };
        self.install_keys(issuer, keys, now)
    }

    /// Ends the refresh of an issuer as `complete_refresh` does and looks
    /// the key up once more, in the fresh key set. A key that the fresh
    /// set does not hold is not found, and neither is any key where the
    /// refresh failed.
    pub fn refresh_and_get_key(
        &mut self,
        issuer: usize,
        key_id: &str,
        body: Option<&str>,
        now: i64,
    ) -> (found: Option<SigningKey>)
        requires
            old(self).wf(),
        ensures
            final(self).wf(),
            final(self)@ == old(self)@.installed(
                issuer as int,
                match body {
                    Some(text) => parsed_key_set(text@),
                    None => None,
                },
                now as int,
            ),
            match found {
                Some(key) => issuer < old(self)@.issuers.len() && final(self)@.refresh[issuer as int]
                    == RefreshState::Idle && first_key_with_id(
                    final(self)@.key_sets[issuer as int].keys,
                    key_id@,
                ) == Some(key@),
                None => issuer >= old(self)@.issuers.len() || final(self)@.refresh[issuer as int]
                    == RefreshState::Failed || first_key_with_id(
                    final(self)@.key_sets[issuer as int].keys,
                    key_id@,
                ) is None,
            },
    {
        if !self.complete_refresh(issuer, body, now) {
            return None;
        }
        match self.key_sets[issuer].find(key_id) {
            Some(key) => Some(key.duplicate()),
            None => None,
        }
    }

    /// Ends the refresh of an issuer with the keys that were fetched, or
    /// with `None` where the fetch or the reading of its result failed.
    ///
    /// With keys, the issuer's key set is replaced as a whole by exactly
    /// those keys. Without, it stays exactly as it was.
    /// Either way no fetch is outstanding afterwards. The result says
    /// whether keys were installed.
    pub fn install_keys(&mut self, issuer: usize, keys: Option<Vec<SigningKey>>, now: i64) -> (installed:
        bool)
        requires
            old(self).wf(),
        ensures
            final(self).wf(),
            final(self)@ == old(self)@.installed(
                issuer as int,
                match keys {
                    Some(fresh) => Some(key_views(fresh@)),
                    None => None,
                },
                now as int,
            ),
            installed == (keys is Some && issuer < old(self)@.issuers.len()),
    {
        if issuer >= self.key_sets.len() {
            return false;
        }
        match keys {
            Some(fresh) => {
                let name = self.registry.get(issuer).name.clone();
                let ghost sets_before = key_set_views(self.key_sets@);
                let fresh_set = KeySet::fetched(name, fresh, now);
                self.key_sets[issuer] = fresh_set;
                assert(key_set_views(self.key_sets@) =~= sets_before.update(
                    issuer as int,
                    self.key_sets@[issuer as int]@,
                ));
                self.refresh[issuer] = RefreshState::Idle;
                true
            },
            None => {
                self.refresh[issuer] = RefreshState::Failed;
                false
            },
        }
    }
}

} // verus!
