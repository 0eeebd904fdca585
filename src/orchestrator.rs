//! The task that keeps one loopback module loaded in the audio server for as
//! long as a webcam's audio input is present, and unloads it on shutdown.
//!
//! The task is a state machine: it is told what happened (`Event`) and says
//! what to do next (`Action`). Talking to the server is left to the caller.

use vstd::prelude::*;
use crate::text::{decimal, push_decimal};

verus! {

/// Name of the server module that mirrors a source as an input of its own.
pub const LOOPBACK_MODULE: &'static str = "module-loopback";

/// The index the audio server hands back when a request failed.
pub const INVALID_INDEX: u32 = 0xffff_ffff;

/// What the task reads of one source of the audio server.
pub struct SourceDesc {
    pub index: u32,
    /// The raw `device.form_factor` property, as the server stores it.
    pub form_factor: Option<Vec<u8>>,
}

/// The bytes of the text `webcam`.
pub open spec fn webcam_tag() -> Seq<u8> {
    seq![119u8, 101u8, 98u8, 99u8, 97u8, 109u8]
}

/// A property value without its C string terminator, if it has one.
pub open spec fn without_nul(b: Seq<u8>) -> Seq<u8> {
    if b.len() > 0 && b.last() == 0 {
        b.drop_last()
    } else {
        b
    }
}

/// Whether a form-factor property says `webcam`.
pub open spec fn is_webcam_tag(b: Seq<u8>) -> bool {
    without_nul(b) == webcam_tag()
}

/// Whether a source is the audio input of a webcam.
pub open spec fn qualifies(s: SourceDesc) -> bool {
    match s.form_factor {
        Some(v) => is_webcam_tag(v@),
        None => false,
    }
}

/// The index of the first source in the list that qualifies.
pub open spec fn first_qualifying(s: Seq<SourceDesc>) -> Option<u32>
    decreases s.len(),
{
    if s.len() == 0 {
        None
    } else if qualifies(s[0]) {
        Some(s[0].index)
    } else {
        first_qualifying(s.drop_first())
    }
}

/// Whether a form-factor property value says `webcam`, with or without a
/// trailing NUL byte.
pub fn is_webcam_form_factor(value: &[u8]) -> (r: bool)
    ensures
        r == is_webcam_tag(value@),
{
    let n = value.len();
    let len: usize = if n > 0 && value[n - 1] == 0 {
        n - 1
    } else {
        n
    };
    assert(without_nul(value@) =~= value@.take(len as int));
    if len != 6 {
        return false;
    }
    let r = value[0] == 119 && value[1] == 101 && value[2] == 98 && value[3] == 99 && value[4]
        == 97 && value[5] == 109;
    proof {
        let t = value@.take(6);
        if r {
            assert(t =~= webcam_tag());
        } else if t == webcam_tag() {
            assert(t[0] == webcam_tag()[0]);
            assert(t[1] == webcam_tag()[1]);
            assert(t[2] == webcam_tag()[2]);
            assert(t[3] == webcam_tag()[3]);
            assert(t[4] == webcam_tag()[4]);
            assert(t[5] == webcam_tag()[5]);
        }
    }
    r
}

/// The index of the first webcam audio input among `sources`.
pub fn select_source(sources: &Vec<SourceDesc>) -> (r: Option<u32>)
    ensures
        r == first_qualifying(sources@),
{
    let mut i: usize = 0;
    assert(sources@.subrange(0, sources@.len() as int) =~= sources@);
    while i < sources.len()
        invariant
            i <= sources@.len(),
            first_qualifying(sources@) == first_qualifying(
                sources@.subrange(i as int, sources@.len() as int),
            ),
        decreases sources.len() - i,
    {
        let q = match &sources[i].form_factor {
            Some(v) => is_webcam_form_factor(v.as_slice()),
            None => false,
        };
        proof {
            let rest = sources@.subrange(i as int, sources@.len() as int);
            assert(rest[0] == sources@[i as int]);
            assert(rest.drop_first() =~= sources@.subrange(i + 1, sources@.len() as int));
        }
        if q {
            return Some(sources[i].index);
        }
        i += 1;
    }
    assert(sources@.subrange(i as int, sources@.len() as int).len() == 0);
    None
}

/// The argument of the loopback module for the source `index`.
pub fn loopback_argument(index: u32) -> (r: String)
    ensures
        r@ == "source="@ + decimal(index as nat) + " source_dont_move=true"@,
{
    let mut s = String::from_str("source=");
    push_decimal(&mut s, index);
    s.append(" source_dont_move=true");
    s
}

/// A loaded loopback module and the source it mirrors.
#[derive(Clone, Copy, PartialEq, Eq, Structural, Debug)]
pub struct Binding {
    pub module_id: u32,
    pub source_index: u32,
}

/// Where the task stands.
#[derive(Clone, Copy, PartialEq, Eq, Structural, Debug)]
pub enum Phase {
    /// The source list has been asked for.
    Searching,
    /// A loopback module is being loaded for the source with this index.
    Loading(u32),
    /// No source qualifies; waiting for a new one to appear.
    Idle,
    /// A module is loaded.
    Active(Binding),
    /// Shut down; nothing more is done.
    Finished,
}

/// The kind of change a source notification reports.
#[derive(Clone, Copy, PartialEq, Eq, Structural, Debug)]
pub enum SourceChange {
    New,
    Changed,
    Removed,
}

/// What the task is told.
pub enum Event {
    /// The server listed its sources.
    Listed(Vec<SourceDesc>),
    /// Listing the sources failed.
    ListFailed,
    /// The load request finished with this module index.
    Loaded(u32),
    /// A source notification: the kind of change and the source's index.
    Source(SourceChange, u32),
    /// The application asks the task to shut down.
    Shutdown,
}

/// What the task asks its caller to do next.
#[derive(Clone, Copy, PartialEq, Eq, Structural, Debug)]
pub enum Action {
    /// Ask the server for its sources.
    ListSources,
    /// Load a loopback module for the source with this index.
    LoadLoopback(u32),
    /// Wait for the next source notification.
    AwaitEvent,
    /// Unload this module, whatever the outcome, then list the sources.
    UnloadThenList(u32),
    /// Unload this module, whatever the outcome, then acknowledge the shutdown.
    UnloadThenAcknowledge(u32),
    /// Acknowledge the shutdown.
    Acknowledge,
    /// The event does not fit the phase; nothing to do.
    Ignore,
}

/// The module the task holds in a phase.
pub open spec fn tracked_module(p: Phase) -> Option<u32> {
    match p {
        Phase::Active(b) => Some(b.module_id),
        _ => None,
    }
}

/// Whether a notification reports the removal of the bound source.
pub open spec fn removes(b: Binding, change: SourceChange, index: u32) -> bool {
    change == SourceChange::Removed && index == b.source_index
}

/// The step taken on a source notification.
pub open spec fn on_source(p: Phase, change: SourceChange, index: u32) -> (Phase, Action) {
    match p {
        Phase::Idle => if change == SourceChange::New {
            (Phase::Searching, Action::ListSources)
        } else {
            (Phase::Idle, Action::AwaitEvent)
        },
        Phase::Active(b) => if removes(b, change, index) {
            (Phase::Searching, Action::UnloadThenList(b.module_id))
        } else {
            (p, Action::AwaitEvent)
        },
        _ => (p, Action::Ignore),
    }
}

/// The step taken on a shutdown request.
pub open spec fn on_shutdown(p: Phase) -> (Phase, Action) {
    match p {
        Phase::Active(b) => (Phase::Finished, Action::UnloadThenAcknowledge(b.module_id)),
        Phase::Finished => (Phase::Finished, Action::Ignore),
        _ => (Phase::Finished, Action::Acknowledge),
    }
}

/// The next phase and the action, for a phase and an event.
pub open spec fn next(p: Phase, e: Event) -> (Phase, Action) {
    match e {
        Event::Listed(sources) => match p {
            Phase::Searching => match first_qualifying(sources@) {
                Some(i) => (Phase::Loading(i), Action::LoadLoopback(i)),
                None => (Phase::Idle, Action::AwaitEvent),
            },
            _ => (p, Action::Ignore),
        },
        Event::ListFailed => match p {
            Phase::Searching => (Phase::Searching, Action::ListSources),
            _ => (p, Action::Ignore),
        },
        Event::Loaded(id) => match p {
            Phase::Loading(i) => if id == INVALID_INDEX {
                (Phase::Searching, Action::ListSources)
            } else {
                (Phase::Active(Binding { module_id: id, source_index: i }), Action::AwaitEvent)
            },
            _ => (p, Action::Ignore),
        },
        Event::Source(change, index) => on_source(p, change, index),
        Event::Shutdown => on_shutdown(p),
    }
}

/// The loopback task.
pub struct Orchestrator {
    pub phase: Phase,
}

impl Orchestrator {
    /// A task that starts by listing the sources.
    pub fn start() -> (r: (Orchestrator, Action))
        ensures
            r.0.phase == Phase::Searching,
            r.1 == Action::ListSources,
    {
        (Orchestrator { phase: Phase::Searching }, Action::ListSources)
    }

    /// Takes one event and says what to do next.
    pub fn step(&mut self, event: Event) -> (a: Action)
        ensures
            (final(self).phase, a) == next(old(self).phase, event),
    {
        let (p, a) = match event {
            Event::Listed(sources) => match self.phase {
                Phase::Searching => match select_source(&sources) {
                    Some(i) => (Phase::Loading(i), Action::LoadLoopback(i)),
                    None => (Phase::Idle, Action::AwaitEvent),
                },
                _ => (self.phase, Action::Ignore),
            },
            Event::ListFailed => match self.phase {
                Phase::Searching => (Phase::Searching, Action::ListSources),
                _ => (self.phase, Action::Ignore),
            },
            Event::Loaded(id) => match self.phase {
                Phase::Loading(i) => if id == INVALID_INDEX {
                    (Phase::Searching, Action::ListSources)
                } else {
                    (Phase::Active(Binding { module_id: id, source_index: i }), Action::AwaitEvent)
                },
                _ => (self.phase, Action::Ignore),
            },
            Event::Source(change, index) => match self.phase {
                Phase::Idle => if change == SourceChange::New {
                    (Phase::Searching, Action::ListSources)
                } else {
                    (Phase::Idle, Action::AwaitEvent)
                },
                Phase::Active(b) => if change == SourceChange::Removed && index == b.source_index {
                    (Phase::Searching, Action::UnloadThenList(b.module_id))
                } else {
                    (self.phase, Action::AwaitEvent)
                },
                _ => (self.phase, Action::Ignore),
            },
            Event::Shutdown => match self.phase {
                Phase::Active(b) => (Phase::Finished, Action::UnloadThenAcknowledge(b.module_id)),
                Phase::Finished => (Phase::Finished, Action::Ignore),
                _ => (Phase::Finished, Action::Acknowledge),
            },
        };
        self.phase = p;
        a
    }

    /// The id of the module the task holds, if any.
    pub fn tracked_module(&self) -> (r: Option<u32>)
        ensures
            r == tracked_module(self.phase),
    {
        match self.phase {
            Phase::Active(b) => Some(b.module_id),
            _ => None,
        }
    }
}

/// The phase reached from `p` through a run of source notifications.
pub open spec fn after_changes(p: Phase, evs: Seq<(SourceChange, u32)>) -> Phase
    decreases evs.len(),
{
    if evs.len() == 0 {
        p
    } else {
        on_source(after_changes(p, evs.drop_last()), evs.last().0, evs.last().1).0
    }
}

/// Whatever run of source notifications arrives while a module is bound, the
/// task gives the module up exactly when one of them reports the removal of
/// the bound source; every other notification leaves it bound.
pub proof fn lemma_active_until_removed(b: Binding, evs: Seq<(SourceChange, u32)>)
    ensures
        after_changes(Phase::Active(b), evs) == if exists|j: int|
            0 <= j < evs.len() && #[trigger] removes(b, evs[j].0, evs[j].1) {
            Phase::Searching
        } else {
            Phase::Active(b)
        },
    decreases evs.len(),
{
    if evs.len() > 0 {
        let init = evs.drop_last();
        lemma_active_until_removed(b, init);
        if exists|j: int| 0 <= j < init.len() && #[trigger] removes(b, init[j].0, init[j].1) {
            let j = choose|j: int| 0 <= j < init.len() && #[trigger] removes(b, init[j].0, init[j].1);
            assert(evs[j] == init[j]);
        } else if removes(b, evs.last().0, evs.last().1) {
            assert(removes(b, evs[evs.len() - 1].0, evs[evs.len() - 1].1));
        } else {
            assert forall|j: int| 0 <= j < evs.len() implies !#[trigger] removes(
                b,
                evs[j].0,
                evs[j].1,
            ) by {
                if j < init.len() {
                    assert(evs[j] == init[j]);
                }
            }
        }
    }
}

/// A module loaded for a source and then unloaded, on the removal of that
/// source or on shutdown, is unloaded by the id the server gave, and the task
/// then holds no module.
pub proof fn lemma_load_unload_round_trip(index: u32, id: u32)
    requires
        id != INVALID_INDEX,
    ensures
        ({
            let loaded = next(Phase::Loading(index), Event::Loaded(id));
            &&& loaded.1 == Action::AwaitEvent
            &&& tracked_module(loaded.0) == Some(id)
            &&& next(loaded.0, Event::Source(SourceChange::Removed, index)).1
                == Action::UnloadThenList(id)
            &&& tracked_module(next(loaded.0, Event::Source(SourceChange::Removed, index)).0)
                is None
            &&& next(loaded.0, Event::Shutdown).1 == Action::UnloadThenAcknowledge(id)
            &&& tracked_module(next(loaded.0, Event::Shutdown).0) is None
        }),
{
}

} // verus!
