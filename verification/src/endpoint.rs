//! The impersonation channel: looking up or provisioning the marker-named
//! endpoint on the destination channel, and building the posts that go
//! through it.

use vstd::prelude::*;
use vstd::string::StringExecFns;

use crate::model::EmbedPayload;
use crate::model::HistoricalMessage;
use crate::model::resolve_identity;
use crate::model::resolved_account_name;
use crate::model::resolved_display_name;
use crate::render::identity_label;
use crate::render::identity_label_spec;
use crate::render::seed_content;
use crate::render::seed_content_spec;
use crate::render::thread_title;
use crate::render::thread_title_spec;

verus! {

/// One impersonation endpoint as the platform lists it: its identifier and
/// its name, when it has one.
#[derive(Debug, PartialEq)]
pub struct EndpointInfo {
    pub id: u64,
    pub name: Option<String>,
}

/// The stable marker name the migrator's endpoint carries, so a later run
/// finds it instead of provisioning a second one.
pub open spec fn marker() -> Seq<char> {
    "MVT_MIGRATOR"@
}

/// Whether an endpoint carries the marker name.
pub open spec fn is_marker(e: EndpointInfo) -> bool {
    e.name is Some && e.name->0@ == marker()
}

/// Whether some endpoint of the list carries the marker name.
pub open spec fn has_marker(endpoints: Seq<EndpointInfo>) -> bool {
    exists|i: int| 0 <= i < endpoints.len() && is_marker(endpoints[i])
}

/// The marker name as a string, for provisioning a fresh endpoint.
pub fn marker_name() -> (r: String)
    ensures
        r@ == marker(),
{
    String::from_str("MVT_MIGRATOR")
}

/// Finds the first marker-named endpoint of the list, if any: the lookup an
/// acquire-or-create performs before it would provision.
pub fn find_migrator(endpoints: &Vec<EndpointInfo>) -> (r: Option<usize>)
    ensures
        match r {
            Some(i) => i < endpoints@.len() && is_marker(endpoints@[i as int]) && (forall|j: int|
                0 <= j < i ==> !is_marker(endpoints@[j])),
            None => !has_marker(endpoints@),
        },
{
    let wanted = marker_name();
    let mut i: usize = 0;
    while i < endpoints.len()
        invariant
            i <= endpoints@.len(),
            wanted@ == marker(),
            forall|j: int| 0 <= j < i ==> !is_marker(endpoints@[j]),
        decreases endpoints@.len() - i,
    {
        match &endpoints[i].name {
            Some(n) => {
                if *n == wanted {
                    return Some(i);
                }
            },
            None => {},
        }
        i = i + 1;
    }
    None
}

/// Acquire-or-create is idempotent: once a marker-named endpoint stands on
/// the channel — in particular right after one was provisioned — every
/// further lookup finds one, so no second endpoint is ever created.
pub proof fn lemma_acquire_idempotent(endpoints: Seq<EndpointInfo>, created: EndpointInfo)
    requires
        is_marker(created),
    ensures
        has_marker(endpoints.push(created)),
        forall|e: EndpointInfo| has_marker(endpoints) ==> has_marker(endpoints.push(e)),
{
    assert(endpoints.push(created)[endpoints.len() as int] == created);
    assert forall|e: EndpointInfo| has_marker(endpoints) implies has_marker(
        endpoints.push(e),
    ) by {
        let i = choose|i: int| 0 <= i < endpoints.len() && is_marker(endpoints[i]);
        assert(endpoints.push(e)[i] == endpoints[i]);
    }
}

/// One outgoing impersonated post, ready for the platform: either the seed
/// (no thread yet, a thread name, waiting for the result) or a replay into
/// the created thread.
#[derive(Debug, PartialEq)]
pub struct PostRequest {
    /// The thread to post into; `None` asks the platform to create one.
    pub thread: Option<u64>,
    /// The name of the thread to create; present only on the seed.
    pub thread_name: Option<String>,
    /// The post's text.
    pub content: String,
    /// The display label the post is attributed to.
    pub username: String,
    /// The avatar shown with the post, when the author has one.
    pub avatar_url: Option<String>,
    /// The attachments to re-host, by their source URLs, in order.
    pub attachment_urls: Vec<String>,
    /// The rich embeds to carry over, in order.
    pub embeds: Vec<EmbedPayload>,
    /// Whether user and role mentions are suppressed; true only on the seed.
    pub suppress_mentions: bool,
    /// Whether the caller must wait for the posted message; true only on the
    /// seed, whose result carries the created thread.
    pub wait: bool,
}

/// What the seed post must hold for a source thread name and a first message.
pub open spec fn seed_request_matches(
    r: PostRequest,
    source_name: Option<String>,
    m: HistoricalMessage,
) -> bool {
    &&& r.thread is None
    &&& r.thread_name is Some
    &&& r.thread_name->0@ == thread_title_spec(source_name)
    &&& r.content@ == seed_content_spec(m.content@, m.author.account_id as nat)
    &&& r.username@ == identity_label_spec(
        resolved_display_name(m.author),
        resolved_account_name(m.author),
    )
    &&& r.avatar_url == m.author.avatar_url
    &&& r.attachment_urls@ == m.attachment_urls@
    &&& r.embeds@ == m.embeds@
    &&& r.suppress_mentions
    &&& r.wait
}

/// What a replay post must hold for the created thread and one later message.
pub open spec fn replay_request_matches(r: PostRequest, thread: u64, m: HistoricalMessage) -> bool {
    &&& r.thread == Some(thread)
    &&& r.thread_name is None
    &&& r.content@ == m.content@
    &&& r.username@ == identity_label_spec(
        resolved_display_name(m.author),
        resolved_account_name(m.author),
    )
    &&& r.avatar_url == m.author.avatar_url
    &&& r.attachment_urls@ == m.attachment_urls@
    &&& r.embeds@ == m.embeds@
    &&& !r.suppress_mentions
    &&& !r.wait
}

/// Builds the seed post: the first message's content with the
/// attributed-original-poster marker appended, posted under the resolved
/// identity, with mentions suppressed, asking the platform to create a
/// thread named after the source.
pub fn seed_request(source_name: &Option<String>, m: &HistoricalMessage) -> (r: PostRequest)
    ensures
        seed_request_matches(r, *source_name, *m),
{
    let (account_name, display_name) = resolve_identity(&m.author);
    PostRequest {
        thread: None,
        thread_name: Some(thread_title(source_name)),
        content: seed_content(m.content.as_str(), m.author.account_id),
        username: identity_label(display_name.as_str(), account_name.as_str()),
        avatar_url: clone_opt_string(&m.author.avatar_url),
        attachment_urls: clone_strings(&m.attachment_urls),
        embeds: clone_embeds(&m.embeds),
        suppress_mentions: true,
        wait: true,
    }
}

/// Builds one replay post: a later message re-posted verbatim into the
/// created thread under its own resolved identity, without mention
/// suppression and without waiting for a result.
pub fn replay_request(thread: u64, m: &HistoricalMessage) -> (r: PostRequest)
    ensures
        replay_request_matches(r, thread, *m),
{
    let (account_name, display_name) = resolve_identity(&m.author);
    PostRequest {
        thread: Some(thread),
        thread_name: None,
        content: m.content.clone(),
        username: identity_label(display_name.as_str(), account_name.as_str()),
        avatar_url: clone_opt_string(&m.author.avatar_url),
        attachment_urls: clone_strings(&m.attachment_urls),
        embeds: clone_embeds(&m.embeds),
        suppress_mentions: false,
        wait: false,
    }
}

/// Keeps the attachments that were actually fetched, in order; ones that
/// failed to fetch are dropped silently, per the re-hosting policy.
pub fn keep_fetched<T>(results: Vec<Option<T>>) -> (r: Vec<T>)
    ensures
        r@ == kept(results@),
{
    let ghost all: Seq<Option<T>> = results@;
    let mut rest = results;
    let mut r: Vec<T> = Vec::new();
    proof {
        assert(all.take(0).filter(|o: Option<T>| o is Some) =~= Seq::<Option<T>>::empty());
        assert(r@ =~= kept(all.take(0)));
    }
    while rest.len() > 0
        invariant
            rest@.len() <= all.len(),
            rest@ == all.skip(all.len() - rest@.len()),
            r@ == kept(all.take(all.len() - rest@.len())),
        decreases rest@.len(),
    {
        let ghost k: int = all.len() - rest@.len();
        let x = rest.remove(0);
        proof {
            assert(x == all[k]);
            assert(rest@ =~= all.skip(k + 1));
            lemma_kept_step(all, k);
        }
        match x {
            Some(bytes) => {
                r.push(bytes);
            },
            None => {},
        }
    }
    proof {
        assert(all.take(all.len() as int) =~= all);
    }
    r
}

/// The fetched payloads of a result list, in order.
pub open spec fn kept<T>(results: Seq<Option<T>>) -> Seq<T> {
    results.filter(|o: Option<T>| o is Some).map_values(|o: Option<T>| o->0)
}

proof fn lemma_kept_step<T>(all: Seq<Option<T>>, k: int)
    requires
        0 <= k < all.len(),
    ensures
        all[k] is Some ==> kept(all.take(k + 1)) == kept(all.take(k)).push(all[k]->0),
        all[k] is None ==> kept(all.take(k + 1)) == kept(all.take(k)),
{
    let pred = |o: Option<T>| o is Some;
    let f = |o: Option<T>| o->0;
    assert(all.take(k + 1).drop_last() =~= all.take(k));
    assert(all.take(k + 1).last() == all[k]);
    reveal_with_fuel(Seq::filter, 2);
    if all[k] is Some {
        assert(all.take(k + 1).filter(pred) == all.take(k).filter(pred).push(all[k]));
        assert(all.take(k).filter(pred).push(all[k]).map_values(f) =~= all.take(k).filter(
            pred,
        ).map_values(f).push(all[k]->0));
    } else {
        assert(all.take(k + 1).filter(pred) == all.take(k).filter(pred));
    }
}

/// Clones a list of strings, keeping each value.
fn clone_strings(v: &Vec<String>) -> (r: Vec<String>)
    ensures
        r@ == v@,
{
    let mut r: Vec<String> = Vec::new();
    let mut i: usize = 0;
    while i < v.len()
        invariant
            i <= v@.len(),
            r@ == v@.take(i as int),
        decreases v@.len() - i,
    {
        r.push(v[i].clone());
        proof {
            assert(r@ =~= v@.take(i as int + 1));
        }
        i = i + 1;
    }
    proof {
        assert(v@.take(v@.len() as int) =~= v@);
    }
    r
}

/// Clones a list of embed payloads, keeping each value.
fn clone_embeds(v: &Vec<EmbedPayload>) -> (r: Vec<EmbedPayload>)
    ensures
        r@ == v@,
{
    let mut r: Vec<EmbedPayload> = Vec::new();
    let mut i: usize = 0;
    while i < v.len()
        invariant
            i <= v@.len(),
            r@ == v@.take(i as int),
        decreases v@.len() - i,
    {
        r.push(v[i].clone());
        proof {
            assert(r@ =~= v@.take(i as int + 1));
        }
        i = i + 1;
    }
    proof {
        assert(v@.take(v@.len() as int) =~= v@);
    }
    r
}

/// Clones an optional string, keeping the value.
fn clone_opt_string(v: &Option<String>) -> (r: Option<String>)
    ensures
        r == *v,
{
    match v {
        Some(s) => Some(s.clone()),
        None => None,
    }
}

} // verus!
