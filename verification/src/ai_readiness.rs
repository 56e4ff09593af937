//! Public backend configuration and the readiness of the AI features.
//!
//! The configuration comes from up to four (url, key) sources in priority
//! order; the first complete one wins, whole, so a url and a key of different
//! sources are never mixed.
use crate::error::VerbalixError;
use crate::text::{
    has_prefix, is_blank, starts_with, strip_trailing, trim, trimmed, without_trailing,
};
use vstd::prelude::*;

verus! {

broadcast use vstd::string::group_string_axioms;

/// The public (non-secret) configuration of the backend.
#[derive(Clone, Debug)]
pub struct PublicBackendConfig {
    pub supabase_url: String,
    pub anonymous_key: String,
    pub configured: bool,
}

/// A (url, key) source, by the characters of its two parts.
pub open spec fn pair_view(p: Option<(String, String)>) -> Option<(Seq<char>, Seq<char>)> {
    match p {
        Some((url, key)) => Some((url@, key@)),
        None => None,
    }
}

/// The first complete source in priority order, or two empty strings.
pub open spec fn chosen_pair(pairs: Seq<Option<(Seq<char>, Seq<char>)>>) -> (Seq<char>, Seq<char>)
    decreases pairs.len(),
{
    if pairs.len() == 0 {
        (Seq::empty(), Seq::empty())
    } else {
        match pairs[0] {
            Some(p) => p,
            None => chosen_pair(pairs.drop_first()),
        }
    }
}

/// A url the transformation client may talk to: HTTPS, or a local development server.
pub open spec fn valid_url_spec(url: Seq<char>) -> bool {
    has_prefix(url, "https://"@) || has_prefix(url, "http://localhost"@)
}

/// The url the configuration keeps for a chosen url: without trailing slashes.
pub open spec fn normalized_url(url: Seq<char>) -> Seq<char> {
    strip_trailing(url, '/')
}

/// A source whose url and key are both present and not blank, trimmed.
pub open spec fn complete_pair_spec(url: Option<Seq<char>>, key: Option<Seq<char>>) -> Option<
    (Seq<char>, Seq<char>),
> {
    match (url, key) {
        (Some(u), Some(k)) => if trim(u).len() > 0 && trim(k).len() > 0 {
            Some((trim(u), trim(k)))
        } else {
            None
        },
        _ => None,
    }
}

pub open spec fn opt_view(o: Option<&str>) -> Option<Seq<char>> {
    match o {
        Some(s) => Some(s@),
        None => None,
    }
}

pub open spec fn opt_string_view(o: Option<String>) -> Option<Seq<char>> {
    match o {
        Some(s) => Some(s@),
        None => None,
    }
}

/// Whether `value` is a url the backend may be reached at.
pub fn valid_url(value: &str) -> (b: bool)
    ensures
        b == valid_url_spec(value@),
{
    starts_with(value, "https://") || starts_with(value, "http://localhost")
}

/// The trimmed (url, key) of a source when both are present and not blank.
pub fn complete_pair(url: Option<&str>, key: Option<&str>) -> (r: Option<(String, String)>)
    ensures
        pair_view(r) == complete_pair_spec(opt_view(url), opt_view(key)),
{
    let url = match url {
        Some(u) => u,
        None => return None,
    };
    let key = match key {
        Some(k) => k,
        None => return None,
    };
    let url = trimmed(url);
    let key = trimmed(key);
    if !url.as_str().is_empty() && !key.as_str().is_empty() {
        Some((url, key))
    } else {
        None
    }
}

fn opt_as_str(o: &Option<String>) -> (r: Option<&str>)
    ensures
        opt_view(r) == opt_string_view(*o),
{
    match o {
        Some(s) => Some(s.as_str()),
        None => None,
    }
}

impl PublicBackendConfig {
    /// The configuration for four raw (url, key) sources, each complete or
    /// not: the process pair of the canonical names, that of the legacy
    /// names, then the canonical and legacy pairs embedded at build time.
    pub fn resolve(sources: [(Option<String>, Option<String>); 4]) -> (config: Self)
        ensures
            config.view_pair() == config_of(
                chosen_pair(
                    Seq::new(
                        4,
                        |i: int|
                            complete_pair_spec(
                                opt_string_view(sources@[i].0),
                                opt_string_view(sources@[i].1),
                            ),
                    ),
                ),
            ),
    {
        let p0 = complete_pair(opt_as_str(&sources[0].0), opt_as_str(&sources[0].1));
        let p1 = complete_pair(opt_as_str(&sources[1].0), opt_as_str(&sources[1].1));
        let p2 = complete_pair(opt_as_str(&sources[2].0), opt_as_str(&sources[2].1));
        let p3 = complete_pair(opt_as_str(&sources[3].0), opt_as_str(&sources[3].1));
        let config = Self::from_pairs([p0, p1, p2, p3]);
        proof {
            let a = Seq::new(
                4,
                |i: int|
                    complete_pair_spec(
                        opt_string_view(sources@[i].0),
                        opt_string_view(sources@[i].1),
                    ),
            );
            let b = seq![pair_view(p0), pair_view(p1), pair_view(p2), pair_view(p3)];
            assert(a =~= b);
        }
        config
    }

    /// The configuration of the first complete pair in priority order,
    /// `configured` when its url is acceptable and its key not blank.
    pub fn from_pairs(pairs: [Option<(String, String)>; 4]) -> (config: Self)
        ensures
            config.view_pair() == config_of(
                chosen_pair(
                    seq![pair_view(pairs@[0]), pair_view(pairs@[1]), pair_view(pairs@[2]), pair_view(pairs@[3])],
                ),
            ),
    {
        let ghost ps = seq![pair_view(pairs@[0]), pair_view(pairs@[1]), pair_view(pairs@[2]), pair_view(pairs@[3])];
        proof {
            assert(ps.drop_first() =~= seq![ps[1], ps[2], ps[3]]);
            assert(ps.drop_first().drop_first() =~= seq![ps[2], ps[3]]);
            assert(ps.drop_first().drop_first().drop_first() =~= seq![ps[3]]);
            assert(ps.drop_first().drop_first().drop_first().drop_first() =~= Seq::<
                Option<(Seq<char>, Seq<char>)>,
            >::empty());
            reveal_with_fuel(chosen_pair, 5);
        }
        let (url, key) = if let Some((u, k)) = &pairs[0] {
            (u.clone(), k.clone())
        } else if let Some((u, k)) = &pairs[1] {
            (u.clone(), k.clone())
        } else if let Some((u, k)) = &pairs[2] {
            (u.clone(), k.clone())
        } else if let Some((u, k)) = &pairs[3] {
            (u.clone(), k.clone())
        } else {
            (String::new(), String::new())
        };
        assert((url@, key@) == chosen_pair(ps));
        let supabase_url = without_trailing(url.as_str(), '/');
        let configured = valid_url(supabase_url.as_str()) && !is_blank(key.as_str());
        PublicBackendConfig { supabase_url, anonymous_key: key, configured }
    }

    /// The configuration as plain values: url, key, configured.
    pub open spec fn view_pair(&self) -> (Seq<char>, Seq<char>, bool) {
        (self.supabase_url@, self.anonymous_key@, self.configured)
    }

    /// The url of the transformation function of the backend.
    pub fn transform_endpoint(&self) -> (endpoint: String)
        ensures
            endpoint@ == self.supabase_url@ + "/functions/v1/transform"@,
    {
        self.supabase_url.clone().concat("/functions/v1/transform")
    }
}

/// What a chosen (url, key) pair makes of the configuration.
pub open spec fn config_of(pair: (Seq<char>, Seq<char>)) -> (Seq<char>, Seq<char>, bool) {
    (
        normalized_url(pair.0),
        pair.1,
        valid_url_spec(normalized_url(pair.0)) && trim(pair.1).len() > 0,
    )
}

/// Whether the AI features can be used now.
#[derive(Clone, Copy, Debug, PartialEq, Eq, Structural)]
pub enum AiReadinessStatus {
    Ready,
    LoginRequired,
    ProviderNotConfigured,
}

/// Where a failed session refresh sends the user.
#[derive(Clone, Copy, Debug, PartialEq, Eq, Structural)]
pub enum RefreshFailureRoute {
    LoginRequired,
    ProviderUnavailable,
}

pub open spec fn status_code(status: AiReadinessStatus) -> &'static str {
    match status {
        AiReadinessStatus::Ready => "ready",
        AiReadinessStatus::LoginRequired => "login_required",
        AiReadinessStatus::ProviderNotConfigured => "provider_not_configured",
    }
}

impl AiReadinessStatus {
    /// The snake-case code of the status.
    pub fn as_str(self) -> (code: &'static str)
        ensures
            code == status_code(self),
    {
        match self {
            AiReadinessStatus::Ready => "ready",
            AiReadinessStatus::LoginRequired => "login_required",
            AiReadinessStatus::ProviderNotConfigured => "provider_not_configured",
        }
    }
}

/// A readiness status with the message shown to the user. The message never
/// holds configuration values.
#[derive(Clone, Debug)]
pub struct AiReadiness {
    pub status: AiReadinessStatus,
    pub message: &'static str,
}

pub open spec fn readiness_message(status: AiReadinessStatus) -> &'static str {
    match status {
        AiReadinessStatus::Ready => "A IA está pronta.",
        AiReadinessStatus::LoginRequired => "Entre no Verbalix para usar tradução e aprimoramento.",
        AiReadinessStatus::ProviderNotConfigured => "Este build não contém a configuração pública do backend.",
    }
}

impl AiReadiness {
    pub fn ready() -> (r: Self)
        ensures
            r.status == AiReadinessStatus::Ready,
            r.message == readiness_message(AiReadinessStatus::Ready),
    {
        AiReadiness { status: AiReadinessStatus::Ready, message: "A IA está pronta." }
    }

    pub fn login_required() -> (r: Self)
        ensures
            r.status == AiReadinessStatus::LoginRequired,
            r.message == readiness_message(AiReadinessStatus::LoginRequired),
    {
        AiReadiness {
            status: AiReadinessStatus::LoginRequired,
            message: "Entre no Verbalix para usar tradução e aprimoramento.",
        }
    }

    pub fn provider_not_configured() -> (r: Self)
        ensures
            r.status == AiReadinessStatus::ProviderNotConfigured,
            r.message == readiness_message(AiReadinessStatus::ProviderNotConfigured),
    {
        AiReadiness {
            status: AiReadinessStatus::ProviderNotConfigured,
            message: "Este build não contém a configuração pública do backend.",
        }
    }
}

/// The readiness for a configuration state and a session state: a missing
/// configuration is reported before a missing login.
pub open spec fn readiness_status(configured: bool, has_session: bool) -> AiReadinessStatus {
    if !configured {
        AiReadinessStatus::ProviderNotConfigured
    } else if !has_session {
        AiReadinessStatus::LoginRequired
    } else {
        AiReadinessStatus::Ready
    }
}

pub fn evaluate_ai_readiness(configured: bool, has_session: bool) -> (r: AiReadiness)
    ensures
        r.status == readiness_status(configured, has_session),
        r.message == readiness_message(r.status),
{
    if !configured {
        AiReadiness::provider_not_configured()
    } else if !has_session {
        AiReadiness::login_required()
    } else {
        AiReadiness::ready()
    }
}

/// Only an authentication failure asks for a new login; every other refresh
/// failure keeps the stored session and reports the provider as unavailable.
pub fn classify_refresh_failure(error: &VerbalixError) -> (route: RefreshFailureRoute)
    ensures
        route == (if *error == VerbalixError::Unauthenticated {
            RefreshFailureRoute::LoginRequired
        } else {
            RefreshFailureRoute::ProviderUnavailable
        }),
{
    match error {
        VerbalixError::Unauthenticated => RefreshFailureRoute::LoginRequired,
        _ => RefreshFailureRoute::ProviderUnavailable,
    }
}

/// Runs the effect a failed refresh calls for: `on_login_required` when the
/// session is no longer valid, `on_provider_unavailable` otherwise; exactly
/// one of the two runs.
pub fn route_refresh_failure<F: FnOnce(), G: FnOnce()>(
    error: &VerbalixError,
    on_login_required: F,
    on_provider_unavailable: G,
)
    requires
        on_login_required.requires(()),
        on_provider_unavailable.requires(()),
    ensures
        *error == VerbalixError::Unauthenticated ==> on_login_required.ensures((), ()),
        *error != VerbalixError::Unauthenticated ==> on_provider_unavailable.ensures((), ()),
{
    match classify_refresh_failure(error) {
        RefreshFailureRoute::LoginRequired => on_login_required(),
        RefreshFailureRoute::ProviderUnavailable => on_provider_unavailable(),
    }
}

/// The readiness the application reports, given whether the backend is
/// configured and, when it is, whether a stored session could be loaded.
/// The session store is only consulted for a configured backend.
pub fn current_ai_readiness(
    configured: bool,
    stored_session: Result<bool, VerbalixError>,
) -> (r: Result<AiReadiness, VerbalixError>)
    ensures
        !configured ==> (r matches Ok(a) && a.status == AiReadinessStatus::ProviderNotConfigured),
        configured ==> match stored_session {
            Ok(has) => (r matches Ok(a) && a.status == readiness_status(true, has)),
            Err(e) => r == Err::<AiReadiness, VerbalixError>(e),
        },
{
    if !configured {
        return Ok(evaluate_ai_readiness(false, false));
    }
    match stored_session {
        Ok(has_session) => Ok(evaluate_ai_readiness(true, has_session)),
        Err(e) => Err(e),
    }
}

/// The error a transformation is refused with before it reaches the
/// provider, for each readiness status; `None` lets it go on.
pub open spec fn readiness_refusal_spec(status: AiReadinessStatus) -> Option<VerbalixError> {
    match status {
        AiReadinessStatus::Ready => None,
        AiReadinessStatus::LoginRequired => Some(VerbalixError::Unauthenticated),
        AiReadinessStatus::ProviderNotConfigured => Some(VerbalixError::ProviderNotConfigured),
    }
}

pub fn readiness_refusal(status: AiReadinessStatus) -> (e: Option<VerbalixError>)
    ensures
        e == readiness_refusal_spec(status),
{
    match status {
        AiReadinessStatus::Ready => None,
        AiReadinessStatus::LoginRequired => Some(VerbalixError::Unauthenticated),
        AiReadinessStatus::ProviderNotConfigured => Some(VerbalixError::ProviderNotConfigured),
    }
}

/// Whether a refused transformation brings up the login window: only when
/// a login is missing, and only while the request may still publish.
pub fn refusal_prompts_login(status: AiReadinessStatus, may_publish: bool) -> (b: bool)
    ensures
        b == (status == AiReadinessStatus::LoginRequired && may_publish),
{
    match status {
        AiReadinessStatus::LoginRequired => may_publish,
        _ => false,
    }
}

/// Whether a failed session refresh brings up the login window: only when
/// the session is no longer valid, and only while the request may still
/// publish.
pub fn refresh_failure_prompts_login(error: &VerbalixError, may_publish: bool) -> (b: bool)
    ensures
        b == (*error == VerbalixError::Unauthenticated && may_publish),
{
    match classify_refresh_failure(error) {
        RefreshFailureRoute::LoginRequired => may_publish,
        RefreshFailureRoute::ProviderUnavailable => false,
    }
}

/// The configuration comes whole from one source: the first complete
/// source in priority order gives both the url and the key, so a url and a
/// key of different sources are never combined.
pub proof fn lemma_config_from_first_complete_source(
    pairs: Seq<Option<(Seq<char>, Seq<char>)>>,
    i: int,
)
    requires
        0 <= i < pairs.len(),
        pairs[i] is Some,
        forall|j: int| 0 <= j < i ==> pairs[j] is None,
    ensures
        chosen_pair(pairs) == pairs[i]->0,
    decreases i,
{
    if i > 0 {
        let rest = pairs.drop_first();
        assert forall|j: int| 0 <= j < i - 1 implies rest[j] is None by {
            assert(rest[j] == pairs[j + 1]);
        }
        lemma_config_from_first_complete_source(rest, i - 1);
    }
}

/// Without any complete source the configuration is empty, and so not
/// configured.
pub proof fn lemma_no_source_no_config(pairs: Seq<Option<(Seq<char>, Seq<char>)>>)
    requires
        forall|j: int| 0 <= j < pairs.len() ==> pairs[j] is None,
    ensures
        chosen_pair(pairs) == (Seq::<char>::empty(), Seq::<char>::empty()),
    decreases pairs.len(),
{
    if pairs.len() > 0 {
        let rest = pairs.drop_first();
        assert forall|j: int| 0 <= j < rest.len() implies rest[j] is None by {
            assert(rest[j] == pairs[j + 1]);
        }
        lemma_no_source_no_config(rest);
    }
}

/// What the interface is told about a readiness: nothing when ready, its
/// message otherwise.
pub fn readiness_notice(readiness: &AiReadiness) -> (notice: Option<&'static str>)
    ensures
        readiness.status == AiReadinessStatus::Ready ==> notice is None,
        readiness.status != AiReadinessStatus::Ready ==> notice == Some(readiness.message),
{
    match readiness.status {
        AiReadinessStatus::Ready => None,
        _ => Some(readiness.message),
    }
}

} // verus!
