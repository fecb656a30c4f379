//! The command gate: recognizing the one served command, validating the
//! invocation context and the caller's authorization, and the process-wide
//! single-flight lock that admits at most one migration at a time.

use vstd::prelude::*;
use vstd::string::StringExecFns;

use crate::errors::ContextFault;
use crate::errors::MigrationError;
use crate::errors::message_spec;
use crate::model::ChannelKind;
use crate::orchestrator::MigrationStep;
use crate::render::success_status;
use crate::render::success_status_spec;

verus! {

/// The closed set of commands this system serves.
#[derive(Debug, PartialEq)]
pub enum Command {
    MoveThread,
}

/// Maps a command name to the command it denotes, if any; unknown names are
/// answered by silence at admission.
pub fn parse_command(name: &String) -> (c: Option<Command>)
    ensures
        name@ == "mv"@ ==> c == Some(Command::MoveThread),
        name@ != "mv"@ ==> c is None,
{
    if *name == String::from_str("mv") {
        Some(Command::MoveThread)
    } else {
        None
    }
}

/// The channel an invocation came from: its kind, the kind of its immediate
/// parent channel when it has one, and its name.
pub struct InvocationSource {
    pub id: u64,
    pub kind: ChannelKind,
    pub parent_kind: Option<ChannelKind>,
    pub name: Option<String>,
}

/// The channel the invocation names as the migration's destination.
pub struct TargetChoice {
    pub id: u64,
    pub kind: ChannelKind,
}

/// An eligible source: a public thread whose immediate parent is a forum.
pub open spec fn eligible_source(s: InvocationSource) -> bool {
    s.kind is PublicThread && s.parent_kind == Some(ChannelKind::Forum)
}

/// An eligible target: a forum channel.
pub open spec fn eligible_target(t: TargetChoice) -> bool {
    t.kind is Forum
}

/// Validates the invocation context: the source must be present and an
/// eligible forum thread, and the chosen target must be present and a forum.
/// The source is judged first, so an ineligible source is reported even when
/// the target is also ineligible.
pub fn validate_context(source: &Option<InvocationSource>, target: &Option<TargetChoice>) -> (r:
    Result<(), MigrationError>)
    ensures
        *source is None ==> r == Err::<(), MigrationError>(MigrationError::NoChannel),
        *source matches Some(s) ==> {
            &&& (!eligible_source(s) ==> r == Err::<(), MigrationError>(
                MigrationError::UnsupportedContext(ContextFault::NotForumThread),
            ))
            &&& (eligible_source(s) ==> {
                &&& (*target is None ==> r == Err::<(), MigrationError>(
                    MigrationError::UnsupportedContext(ContextFault::TargetNotForum),
                ))
                &&& (*target matches Some(t) ==> {
                    &&& (!eligible_target(t) ==> r == Err::<(), MigrationError>(
                        MigrationError::UnsupportedContext(ContextFault::TargetNotForum),
                    ))
                    &&& (eligible_target(t) ==> r == Ok::<(), MigrationError>(()))
                })
            })
        },
{
    let s = match source {
        Some(s) => s,
        None => {
            return Err(MigrationError::NoChannel);
        },
    };
    let parent_is_forum = match s.parent_kind {
        Some(k) => k == ChannelKind::Forum,
        None => false,
    };
    let source_ok = s.kind == ChannelKind::PublicThread && parent_is_forum;
    if !source_ok {
        return Err(MigrationError::UnsupportedContext(ContextFault::NotForumThread));
    }
    match target {
        Some(t) => {
            if t.kind == ChannelKind::Forum {
                Ok(())
            } else {
                Err(MigrationError::UnsupportedContext(ContextFault::TargetNotForum))
            }
        },
        None => Err(MigrationError::UnsupportedContext(ContextFault::TargetNotForum)),
    }
}

/// Whether the member's roles include the required one; an invocation that
/// carries no member data is not rejected, matching the platform's behavior
/// outside guild contexts.
pub open spec fn role_ok(member_roles: Option<Seq<u64>>, required: u64) -> bool {
    match member_roles {
        Some(roles) => roles.contains(required),
        None => true,
    }
}

/// Whether the role list holds the required role.
pub fn has_role(roles: &Vec<u64>, required: u64) -> (r: bool)
    ensures
        r == roles@.contains(required),
{
    let mut i: usize = 0;
    while i < roles.len()
        invariant
            i <= roles@.len(),
            forall|j: int| 0 <= j < i ==> roles@[j] != required,
        decreases roles@.len() - i,
    {
        if roles[i] == required {
            return true;
        }
        i = i + 1;
    }
    false
}

/// The process-wide migration lock: a single boolean token guarding at most
/// one migration across the whole process, whichever channels are involved.
pub struct SingleFlight {
    pub busy: bool,
}

impl SingleFlight {
    /// A fresh token: no migration in progress.
    pub fn new() -> (r: Self)
        ensures
            !r.busy,
    {
        SingleFlight { busy: false }
    }

    /// Non-blocking test-and-set: granted exactly when no migration was in
    /// progress; the token is held afterwards either way.
    pub fn try_acquire(&mut self) -> (granted: bool)
        ensures
            granted == !old(self).busy,
            final(self).busy,
    {
        let granted = !self.busy;
        self.busy = true;
        granted
    }

    /// Releases the token unconditionally: whatever happened, the next
    /// invocation finds it free.
    pub fn release(&mut self)
        ensures
            !final(self).busy,
    {
        self.busy = false;
    }
}

/// What admission decides about one invocation.
#[derive(Debug, PartialEq)]
pub enum GateDecision {
    /// Unknown command: answered by silence.
    Ignore,
    /// Rejected before any platform-mutating work.
    Reject(MigrationError),
    /// Admitted: the caller now holds the single-flight token and must
    /// conclude through `gate_conclude`.
    Admitted,
}

/// Admits or rejects one invocation, in the command gate's order: unknown commands
/// are ignored, then the authorization role is checked, then the
/// single-flight token is claimed. Only an admitted invocation may do
/// platform-mutating work, and it fully claims the token first.
pub fn gate_admit(
    command: Option<Command>,
    member_roles: &Option<Vec<u64>>,
    required_role: u64,
    flight: &mut SingleFlight,
) -> (d: GateDecision)
    ensures
        command is None ==> d == GateDecision::Ignore && *final(flight) == *old(flight),
        command is Some ==> {
            let roles_view = match *member_roles {
                Some(roles) => Some(roles@),
                None => None::<Seq<u64>>,
            };
            &&& (!role_ok(roles_view, required_role) ==> d == GateDecision::Reject(
                MigrationError::NotAllowed,
            ) && *final(flight) == *old(flight))
            &&& (role_ok(roles_view, required_role) && old(flight).busy ==> d
                == GateDecision::Reject(MigrationError::AlreadyProcessing) && final(flight).busy)
            &&& (role_ok(roles_view, required_role) && !old(flight).busy ==> d
                == GateDecision::Admitted && final(flight).busy)
        },
{
    if command.is_none() {
        return GateDecision::Ignore;
    }
    match member_roles {
        Some(roles) => {
            if !has_role(roles, required_role) {
                return GateDecision::Reject(MigrationError::NotAllowed);
            }
        },
        None => {},
    }
    if !flight.try_acquire() {
        return GateDecision::Reject(MigrationError::AlreadyProcessing);
    }
    GateDecision::Admitted
}

/// Concludes an admitted invocation: releases the single-flight token
/// unconditionally — success or failure alike — and renders the status line
/// for the invoking user.
pub fn gate_conclude(flight: &mut SingleFlight, step: MigrationStep) -> (status: String)
    requires
        step is Succeed || step is Fail,
    ensures
        !final(flight).busy,
        step matches MigrationStep::Succeed { destination, migrated } ==> status@
            == success_status_spec(destination as nat),
        step matches MigrationStep::Fail { error } ==> status@ == message_spec(error),
{
    flight.release();
    match step {
        MigrationStep::Succeed { destination, migrated: _ } => success_status(destination),
        MigrationStep::Fail { error } => error.message(),
        _ => {
            proof {
                assert(false);
            }
            String::new()
        },
    }
}

/// Single-flight: of two invocations overlapping in time, the first
/// acquisition of the free token is granted; the second, made while the
/// first still holds it, is refused — so the second migration does no
/// platform-mutating work.
pub proof fn lemma_second_acquire_refused(
    free: SingleFlight,
    held: SingleFlight,
    granted_first: bool,
    granted_second: bool,
)
    requires
        !free.busy,
        granted_first == !free.busy,
        held.busy,
        granted_second == !held.busy,
    ensures
        granted_first,
        !granted_second,
{
}

/// Lock release: a concluded migration — failed at whatever step — leaves
/// the token free, so the next invocation's acquisition is granted.
pub proof fn lemma_release_enables_next(released: SingleFlight, granted_next: bool)
    requires
        !released.busy,
        granted_next == !released.busy,
    ensures
        granted_next,
{
}

} // verus!
