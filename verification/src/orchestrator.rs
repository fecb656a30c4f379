//! The migration orchestrator: a state machine that sequences one migration.
//!
//! The caller performs the platform calls and feeds each result back in; the
//! machine decides every next step. The protocol it enforces: acquire or
//! create the impersonation endpoint, fetch the full history page by page,
//! post the seed message (which creates the destination thread), then replay
//! every remaining message into that thread in order. The seed strictly
//! precedes all replays, and replays are emitted in fetched chronological
//! order, one at a time.

use vstd::prelude::*;
use vstd::string::StringExecFns;

use crate::endpoint::EndpointInfo;
use crate::endpoint::PostRequest;
use crate::endpoint::find_migrator;
use crate::endpoint::has_marker;
use crate::endpoint::is_marker;
use crate::endpoint::marker;
use crate::endpoint::marker_name;
use crate::endpoint::replay_request;
use crate::endpoint::replay_request_matches;
use crate::endpoint::seed_request;
use crate::endpoint::seed_request_matches;
use crate::errors::MigrationError;
use crate::history::HistoryFetch;
use crate::history::collated;
use crate::model::HistoricalMessage;

verus! {

/// Where a migration stands in its protocol.
#[derive(Debug, PartialEq)]
pub enum MigrationPhase {
    /// Waiting for the list of the destination's endpoints.
    ListingEndpoints,
    /// Waiting for the outcome of provisioning a fresh endpoint.
    Provisioning,
    /// Waiting for the next history page.
    Fetching,
    /// Waiting for the seed post's result.
    PostingSeed,
    /// Waiting for the acknowledgement that one replay post was issued.
    Replaying,
    /// Finished, successfully or not.
    Concluded,
}

/// The next platform call the caller must make, or the migration's end.
#[derive(Debug, PartialEq)]
pub enum MigrationStep {
    /// List the impersonation endpoints of the destination channel.
    ListEndpoints { destination: u64 },
    /// Provision a fresh endpoint with the marker name on the destination.
    ProvisionEndpoint { destination: u64, endpoint_name: String },
    /// Fetch the next history page, older than the cursor (or the newest
    /// page when the cursor is absent).
    FetchPage { cursor: Option<u64> },
    /// Post the seed message and wait for its result, which carries the
    /// created thread.
    PostSeed { endpoint: u64, request: PostRequest },
    /// Issue one replay post, best-effort: its failure is swallowed and the
    /// migration continues.
    PostReplay { endpoint: u64, request: PostRequest },
    /// The migration succeeded; `migrated` counts every posted message, the
    /// seed included.
    Succeed { destination: u64, migrated: u64 },
    /// The migration failed; a partially populated destination thread may
    /// remain, by design.
    Fail { error: MigrationError },
}

/// One migration in progress.
pub struct Migration {
    /// The destination forum channel.
    pub destination: u64,
    /// The source thread's name, when it has one; names the created thread.
    pub source_name: Option<String>,
    pub phase: MigrationPhase,
    /// The impersonation endpoint in use, once acquired.
    pub endpoint: Option<u64>,
    /// The paging machine for the source thread's history.
    pub fetch: HistoryFetch,
    /// The collated history, oldest first, once fetching has ended.
    pub history: Vec<HistoricalMessage>,
    /// The index of the message whose replay is in flight.
    pub next_replay: usize,
    /// The created thread, once the seed post returned.
    pub thread: Option<u64>,
}

impl Migration {
    /// The machine's invariant, phase by phase.
    pub open spec fn wf(self) -> bool {
        &&& self.fetch.wf()
        &&& match self.phase {
            MigrationPhase::ListingEndpoints => !self.fetch.finished,
            MigrationPhase::Provisioning => !self.fetch.finished,
            MigrationPhase::Fetching => self.endpoint is Some && !self.fetch.finished,
            MigrationPhase::PostingSeed => self.endpoint is Some && self.history@.len() > 0,
            MigrationPhase::Replaying => self.endpoint is Some && self.thread is Some && 1
                <= self.next_replay < self.history@.len(),
            MigrationPhase::Concluded => true,
        }
    }

    /// Starts a migration towards the given destination. The first step is
    /// always the endpoint lookup: no mutating call precedes it.
    pub fn begin(destination: u64, source_name: Option<String>) -> (r: (Migration, MigrationStep))
        ensures
            r.0.wf(),
            r.0.phase is ListingEndpoints,
            r.0.destination == destination,
            r.0.source_name == source_name,
            r.0.endpoint is None,
            r.0.fetch.pages@ == Seq::<Seq<HistoricalMessage>>::empty(),
            r.1 == (MigrationStep::ListEndpoints { destination }),
    {
        let m = Migration {
            destination,
            source_name,
            phase: MigrationPhase::ListingEndpoints,
            endpoint: None,
            fetch: HistoryFetch::new(),
            history: Vec::new(),
            next_replay: 0,
            thread: None,
        };
        (m, MigrationStep::ListEndpoints { destination })
    }

    /// Consumes the endpoint listing: the first marker-named endpoint is
    /// reused; when none exists, one is provisioned. Either way, no second
    /// marker endpoint is ever created on a channel that already has one.
    pub fn on_endpoints(&mut self, endpoints: Vec<EndpointInfo>) -> (step: MigrationStep)
        requires
            old(self).wf(),
            old(self).phase is ListingEndpoints,
        ensures
            final(self).wf(),
            final(self).destination == old(self).destination,
            final(self).source_name == old(self).source_name,
            final(self).fetch == old(self).fetch,
            has_marker(endpoints@) ==> {
                &&& final(self).phase is Fetching
                &&& step == (MigrationStep::FetchPage { cursor: None::<u64> })
                &&& exists|i: int|
                    0 <= i < endpoints@.len() && is_marker(endpoints@[i]) && final(self).endpoint
                        == Some(endpoints@[i].id)
            },
            !has_marker(endpoints@) ==> {
                &&& final(self).phase is Provisioning
                &&& step matches MigrationStep::ProvisionEndpoint {
                    destination: d,
                    endpoint_name: n,
                } && d == old(self).destination && n@ == marker()
            },
    {
        match find_migrator(&endpoints) {
            Some(i) => {
                self.endpoint = Some(endpoints[i].id);
                self.phase = MigrationPhase::Fetching;
                MigrationStep::FetchPage { cursor: None }
            },
            None => {
                self.phase = MigrationPhase::Provisioning;
                MigrationStep::ProvisionEndpoint {
                    destination: self.destination,
                    endpoint_name: marker_name(),
                }
            },
        }
    }

    /// Consumes the provisioning outcome: a fresh endpoint starts the fetch;
    /// a provisioning rejection concludes the migration with
    /// `WebhookCreationFailed` and no further platform call.
    pub fn on_provisioned(&mut self, outcome: Result<u64, String>) -> (step: MigrationStep)
        requires
            old(self).wf(),
            old(self).phase is Provisioning,
        ensures
            final(self).wf(),
            final(self).destination == old(self).destination,
            final(self).source_name == old(self).source_name,
            final(self).fetch == old(self).fetch,
            outcome matches Ok(id) ==> final(self).phase is Fetching && final(self).endpoint
                == Some(id) && step == (MigrationStep::FetchPage { cursor: None::<u64> }),
            outcome matches Err(why) ==> final(self).phase is Concluded && step == (
            MigrationStep::Fail { error: MigrationError::WebhookCreationFailed(why) }),
    {
        match outcome {
            Ok(id) => {
                self.endpoint = Some(id);
                self.phase = MigrationPhase::Fetching;
                MigrationStep::FetchPage { cursor: None }
            },
            Err(why) => {
                self.phase = MigrationPhase::Concluded;
                MigrationStep::Fail { error: MigrationError::WebhookCreationFailed(why) }
            },
        }
    }

    /// Consumes one history page, or a fetch failure (`None`), which ends
    /// paging early with whatever was accumulated. A non-empty page asks for
    /// the next one; once paging ends, an empty history concludes with
    /// `NoMessages`, and otherwise the seed post for the oldest message is
    /// emitted.
    pub fn on_page(&mut self, page: Option<Vec<HistoricalMessage>>) -> (step: MigrationStep)
        requires
            old(self).wf(),
            old(self).phase is Fetching,
        ensures
            final(self).wf(),
            final(self).destination == old(self).destination,
            final(self).source_name == old(self).source_name,
            ({
                let pages = match page {
                    Some(p) => old(self).fetch.pages@.push(p@),
                    None => old(self).fetch.pages@,
                };
                let hist = collated(pages);
                &&& (page matches Some(p) ==> (p@.len() > 0 ==> final(self).phase is Fetching
                    && final(self).fetch.pages@ == pages && step == (MigrationStep::FetchPage {
                    cursor: Some(p@.last().id),
                })))
                &&& ((page is None || page->0@.len() == 0) && hist.len() == 0 ==> final(self).phase is Concluded && step == (MigrationStep::Fail {
                    error: MigrationError::NoMessages,
                }))
                &&& ((page is None || page->0@.len() == 0) && hist.len() > 0 ==> final(self).phase is PostingSeed && final(self).history@ == hist && (step
                    matches MigrationStep::PostSeed { endpoint: e, request: q } && Some(e) == old(self).endpoint && seed_request_matches(q, old(self).source_name, hist[0])))
            }),
    {
        match page {
            Some(p) => self.fetch.note_page(p),
            None => self.fetch.note_failure(),
        }
        if self.fetch.is_finished() {
            let mut taken = HistoryFetch::new();
            core::mem::swap(&mut taken, &mut self.fetch);
            let hist = taken.into_history();
            if hist.len() == 0 {
                self.phase = MigrationPhase::Concluded;
                MigrationStep::Fail { error: MigrationError::NoMessages }
            } else {
                let q = seed_request(&self.source_name, &hist[0]);
                self.history = hist;
                self.phase = MigrationPhase::PostingSeed;
                MigrationStep::PostSeed { endpoint: self.endpoint.unwrap(), request: q }
            }
        } else {
            MigrationStep::FetchPage { cursor: self.fetch.request_cursor() }
        }
    }

    /// Consumes the seed post's result: no result is fatal (`SendFailed`);
    /// a result carries the created thread, into which the remaining
    /// messages are then replayed in order, starting with the second
    /// message. A history of one message succeeds at once.
    pub fn on_seed_result(&mut self, posted: Option<u64>) -> (step: MigrationStep)
        requires
            old(self).wf(),
            old(self).phase is PostingSeed,
        ensures
            final(self).wf(),
            final(self).destination == old(self).destination,
            final(self).history == old(self).history,
            posted is None ==> final(self).phase is Concluded && (step
                matches MigrationStep::Fail { error: e } && e matches MigrationError::SendFailed(
                why,
            ) && why@ == "Unable to send the first message"@),
            posted matches Some(thread) ==> {
                &&& final(self).thread == Some(thread)
                &&& (old(self).history@.len() == 1 ==> final(self).phase is Concluded && step == (
                MigrationStep::Succeed { destination: old(self).destination, migrated: 1u64 }))
                &&& (old(self).history@.len() > 1 ==> final(self).phase is Replaying && final(self).next_replay == 1 && (step matches MigrationStep::PostReplay {
                    endpoint: e,
                    request: q,
                } && Some(e) == old(self).endpoint && replay_request_matches(
                    q,
                    thread,
                    old(self).history@[1],
                )))
            },
    {
        match posted {
            None => {
                self.phase = MigrationPhase::Concluded;
                MigrationStep::Fail {
                    error: MigrationError::SendFailed(
                        String::from_str("Unable to send the first message"),
                    ),
                }
            },
            Some(thread) => {
                self.thread = Some(thread);
                self.next_replay = 1;
                self.phase = MigrationPhase::Replaying;
                self.advance_replay()
            },
        }
    }

    /// Acknowledges that the in-flight replay post was issued (delivered or
    /// not: replay is best-effort) and emits the next step.
    pub fn on_replay_issued(&mut self) -> (step: MigrationStep)
        requires
            old(self).wf(),
            old(self).phase is Replaying,
        ensures
            final(self).wf(),
            final(self).destination == old(self).destination,
            final(self).history == old(self).history,
            final(self).thread == old(self).thread,
            old(self).next_replay + 1 < old(self).history@.len() ==> final(self).phase is Replaying
                && final(self).next_replay == old(self).next_replay + 1 && (step
                matches MigrationStep::PostReplay { endpoint: e, request: q } && Some(e) == old(self).endpoint && replay_request_matches(
                q,
                old(self).thread->0,
                old(self).history@[old(self).next_replay + 1],
            )),
            old(self).next_replay + 1 == old(self).history@.len() ==> final(self).phase
                is Concluded && step == (MigrationStep::Succeed {
                destination: old(self).destination,
                migrated: old(self).history@.len() as u64,
            }),
    {
        let bound = self.history.len();
        proof {
            assert(self.next_replay < bound);
        }
        self.next_replay = self.next_replay + 1;
        self.advance_replay()
    }

    /// Emits the replay of `next_replay`, or concludes with success once
    /// every message has been posted.
    fn advance_replay(&mut self) -> (step: MigrationStep)
        requires
            old(self).fetch.wf(),
            old(self).phase is Replaying,
            old(self).endpoint is Some,
            old(self).thread is Some,
            1 <= old(self).next_replay <= old(self).history@.len(),
        ensures
            final(self).wf(),
            final(self).destination == old(self).destination,
            final(self).history == old(self).history,
            final(self).thread == old(self).thread,
            final(self).next_replay == old(self).next_replay,
            old(self).next_replay < old(self).history@.len() ==> final(self).phase is Replaying
                && (step matches MigrationStep::PostReplay { endpoint: e, request: q } && Some(e)
                == old(self).endpoint && replay_request_matches(
                q,
                old(self).thread->0,
                old(self).history@[old(self).next_replay as int],
            )),
            old(self).next_replay == old(self).history@.len() ==> final(self).phase is Concluded
                && step == (MigrationStep::Succeed {
                destination: old(self).destination,
                migrated: old(self).history@.len() as u64,
            }),
    {
        if self.next_replay < self.history.len() {
            let q = replay_request(self.thread.unwrap(), &self.history[self.next_replay]);
            MigrationStep::PostReplay { endpoint: self.endpoint.unwrap(), request: q }
        } else {
            self.phase = MigrationPhase::Concluded;
            MigrationStep::Succeed {
                destination: self.destination,
                migrated: self.history.len() as u64,
            }
        }
    }
}

} // verus!
