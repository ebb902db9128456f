//! Following one sender: polling its description, finding one to follow, noticing changes.
use vstd::prelude::*;

use crate::spout::order::sort_names;
use crate::spout::{resource_changed, ErrorKind, SenderInfo, SenderName, SpoutError};
use crate::time::{Duration, Instant};

verus! {

/// How often the description of a connected sender is read, in milliseconds.
pub const CONNECTED_METADATA_POLL_MILLIS: u64 = 100;

/// How often a sender is looked for while none is connected, in milliseconds.
pub const DISCONNECTED_METADATA_POLL_MILLIS: u64 = 500;

/// How often the known senders are tried one after the other, in milliseconds.
pub const CANDIDATE_RETRY_MILLIS: u64 = 500;

/// Nanoseconds until the next look at a description.
pub open spec fn poll_nanos(connected: bool) -> u64 {
    if connected {
        100_000_000
    } else {
        500_000_000
    }
}

pub fn metadata_poll_interval(connected: bool) -> (span: Duration)
    ensures
        span.nanos == poll_nanos(connected),
{
    if connected {
        Duration::from_millis(CONNECTED_METADATA_POLL_MILLIS)
    } else {
        Duration::from_millis(DISCONNECTED_METADATA_POLL_MILLIS)
    }
}

/// Later moments can still be scheduled.
pub open spec fn schedulable(now: Instant) -> bool {
    now.nanos + 500_000_000 <= u64::MAX
}

/// The bytes of a name that may be missing.
pub open spec fn optional_bytes(name: Option<SenderName>) -> Option<Seq<u8>> {
    match name {
        Some(name) => Some(name@),
        None => None,
    }
}

/// What a [`SpoutReceiver`] remembers.
pub struct ReceiverState {
    pub selected: Option<Seq<u8>>,
    pub current: Option<SenderInfo>,
    pub discovered: Seq<Seq<u8>>,
    pub generation: u64,
    pub next_metadata_poll: Instant,
    pub next_discovery: Instant,
}

/// A description that is to be read, and why.
pub enum ReadStage {
    /// That of the sender that is followed. The poll began at `started`.
    Selected { name: Seq<u8>, started: Instant },
    /// That of the sender at position `at` of `names`, which are tried one after the other. The
    /// poll began at `since` if a sender was followed and is gone.
    Candidate { names: Seq<Seq<u8>>, at: int, since: Option<Instant> },
}

impl ReadStage {
    pub open spec fn target(self) -> Seq<u8> {
        match self {
            ReadStage::Selected { name, .. } => name,
            ReadStage::Candidate { names, at, .. } => names[at],
        }
    }

    pub open spec fn started_at(self) -> Option<Instant> {
        match self {
            ReadStage::Selected { started, .. } => Some(started),
            ReadStage::Candidate { since, .. } => since,
        }
    }

    pub open spec fn wf(self) -> bool {
        &&& self.started_at() matches Some(started) ==> schedulable(started)
        &&& self matches ReadStage::Candidate { names, at, .. } ==> 0 <= at < names.len()
    }
}

/// What a poll does next.
pub enum PollStep {
    Read(ReadStage),
    Done(Result<bool, SpoutError>),
}

impl ReceiverState {
    /// Nothing is followed and nothing is known.
    pub open spec fn fresh(now: Instant) -> ReceiverState {
        ReceiverState {
            selected: None,
            current: None,
            discovered: Seq::empty(),
            generation: 0,
            next_metadata_poll: now,
            next_discovery: now,
        }
    }

    /// Only a sender that is followed and can be shown is connected.
    pub open spec fn wf(self) -> bool {
        self.current matches Some(info) ==> info.usable() && self.selected is Some
    }

    pub open spec fn scheduled(self, now: Instant, connected: bool) -> ReceiverState {
        ReceiverState {
            next_metadata_poll: Instant { nanos: (now.nanos + poll_nanos(connected)) as u64 },
            ..self
        }
    }

    pub open spec fn renewed(self) -> ReceiverState {
        ReceiverState {
            generation: if self.generation == u64::MAX {
                0
            } else {
                (self.generation + 1) as u64
            },
            ..self
        }
    }

    pub open spec fn disconnected(self) -> ReceiverState {
        ReceiverState { current: None, ..self }
    }

    /// The sender that is followed has the texture `info`.
    pub open spec fn updated(self, info: SenderInfo) -> ReceiverState {
        let renewed = match self.current {
            Some(previous) => if crate::spout::another_resource(previous, info) {
                self.renewed()
            } else {
                self
            },
            None => self.renewed(),
        };
        ReceiverState { current: Some(info), ..renewed }
    }

    /// From now on the sender `name` with the texture `info` is followed.
    pub open spec fn connected_to(self, name: Seq<u8>, info: SenderInfo) -> ReceiverState {
        ReceiverState { selected: Some(name), current: Some(info), ..self.renewed() }
    }

    /// A poll begins.
    pub open spec fn begin(self, now: Instant) -> (ReceiverState, PollStep) {
        if now.nanos < self.next_metadata_poll.nanos {
            (self, PollStep::Done(Ok(self.current is Some)))
        } else {
            let state = self.scheduled(now, self.current is Some);
            match self.selected {
                None => state.discover(None, now),
                Some(name) => (
                    state,
                    PollStep::Read(ReadStage::Selected { name, started: now }),
                ),
            }
        }
    }

    /// A sender is looked for among the known ones, unless that was done a moment ago.
    pub open spec fn discover(self, started: Option<Instant>, now: Instant) -> (
        ReceiverState,
        PollStep,
    ) {
        if now.nanos < self.next_discovery.nanos {
            self.unfound(started)
        } else {
            let state = ReceiverState {
                next_discovery: Instant { nanos: (now.nanos + 500_000_000) as u64 },
                ..self
            };
            state.candidate(started, crate::spout::order::by_name(self.discovered), 0)
        }
    }

    /// The candidates from position `at` on are tried.
    pub open spec fn candidate(
        self,
        started: Option<Instant>,
        names: Seq<Seq<u8>>,
        at: int,
    ) -> (ReceiverState, PollStep) {
        if at < names.len() {
            (self, PollStep::Read(ReadStage::Candidate { names, at, since: started }))
        } else {
            self.unfound(started)
        }
    }

    /// No sender was found.
    pub open spec fn unfound(self, started: Option<Instant>) -> (ReceiverState, PollStep) {
        match started {
            Some(started) => (self.scheduled(started, false), PollStep::Done(Ok(false))),
            None => (self, PollStep::Done(Ok(false))),
        }
    }

    /// The description of the followed sender was looked at.
    pub open spec fn selected_read(
        self,
        started: Instant,
        outcome: Result<SenderInfo, SpoutError>,
        now: Instant,
    ) -> (ReceiverState, PollStep) {
        match outcome {
            Ok(info) => if info.usable() {
                (self.updated(info).scheduled(started, true), PollStep::Done(Ok(true)))
            } else {
                (self.disconnected().scheduled(started, false), PollStep::Done(Ok(false)))
            },
            Err(error) => match error.kind_of() {
                ErrorKind::NotFound => self.disconnected().discover(Some(started), now),
                ErrorKind::WouldBlock => (self, PollStep::Done(Ok(self.current is Some))),
                _ => (self, PollStep::Done(Err(error))),
            },
        }
    }

    /// The description of a candidate was looked at. One that cannot be shown, is gone or is
    /// busy gives way to the next.
    pub open spec fn candidate_read(
        self,
        started: Option<Instant>,
        names: Seq<Seq<u8>>,
        at: int,
        outcome: Result<SenderInfo, SpoutError>,
        now: Instant,
    ) -> (ReceiverState, PollStep) {
        match outcome {
            Ok(info) => if info.usable() {
                let since = match started {
                    Some(started) => started,
                    None => now,
                };
                (
                    self.connected_to(names[at], info).scheduled(since, true),
                    PollStep::Done(Ok(true)),
                )
            } else {
                self.candidate(started, names, at + 1)
            },
            Err(error) => match error.kind_of() {
                ErrorKind::NotFound => self.candidate(started, names, at + 1),
                ErrorKind::WouldBlock => self.candidate(started, names, at + 1),
                _ => (self, PollStep::Done(Err(error))),
            },
        }
    }

    /// The description that was asked for was looked at.
    pub open spec fn resume(
        self,
        stage: ReadStage,
        outcome: Result<SenderInfo, SpoutError>,
        now: Instant,
    ) -> (ReceiverState, PollStep) {
        match stage {
            ReadStage::Selected { started, .. } => self.selected_read(started, outcome, now),
            ReadStage::Candidate { names, at, since } => self.candidate_read(
                since,
                names,
                at,
                outcome,
                now,
            ),
        }
    }
}

enum Stage {
    Selected { name: SenderName, started: Instant },
    Candidate { names: Vec<SenderName>, at: usize, since: Option<Instant> },
}

/// A description that a poll waits for.
pub struct PendingRead {
    stage: Stage,
}

impl View for PendingRead {
    type V = ReadStage;

    closed spec fn view(&self) -> ReadStage {
        match self.stage {
            Stage::Selected { name, started } => ReadStage::Selected { name: name@, started },
            Stage::Candidate { names, at, since } => ReadStage::Candidate {
                names: crate::spout::order::name_bytes(names@),
                at: at as int,
                since,
            },
        }
    }
}

impl PendingRead {
    /// The sender whose description is to be read.
    pub fn sender(&self) -> (name: &SenderName)
        requires
            self@.wf(),
        ensures
            name@ == self@.target(),
    {
        match &self.stage {
            Stage::Selected { name, .. } => name,
            Stage::Candidate { names, at, .. } => &names[*at],
        }
    }
}

/// What happens to a poll: it begins, or the description that it waits for was looked at.
pub enum PollEvent {
    Start,
    Read { pending: PendingRead, outcome: Result<SenderInfo, SpoutError> },
}

/// What a poll asks for: a description, or nothing more.
pub enum PollAction {
    Read(PendingRead),
    /// Whether a sender is connected, or why that is not known.
    Done(Result<bool, SpoutError>),
}

impl View for PollAction {
    type V = PollStep;

    open spec fn view(&self) -> PollStep {
        match self {
            PollAction::Read(pending) => PollStep::Read(pending@),
            PollAction::Done(result) => PollStep::Done(*result),
        }
    }
}

/// Follows one sender.
pub struct SpoutReceiver {
    selected: Option<SenderName>,
    current: Option<SenderInfo>,
    discovered: Vec<SenderName>,
    generation: u64,
    next_metadata_poll: Instant,
    next_discovery: Instant,
}

impl View for SpoutReceiver {
    type V = ReceiverState;

    closed spec fn view(&self) -> ReceiverState {
        ReceiverState {
            selected: optional_bytes(self.selected),
            current: self.current,
            discovered: crate::spout::order::name_bytes(self.discovered@),
            generation: self.generation,
            next_metadata_poll: self.next_metadata_poll,
            next_discovery: self.next_discovery,
        }
    }
}

impl SpoutReceiver {
    pub fn new(now: Instant) -> (receiver: Self)
        ensures
            receiver@ == ReceiverState::fresh(now),
            receiver@.wf(),
    {
        let receiver = SpoutReceiver {
            selected: None,
            current: None,
            discovered: Vec::new(),
            generation: 0,
            next_metadata_poll: now,
            next_discovery: now,
        };
        assert(receiver@.discovered =~= Seq::empty());
        receiver
    }

    /// Takes over the latest list of senders.
    pub fn update_discovered(&mut self, senders: Vec<SenderName>)
        ensures
            final(self)@ == (ReceiverState {
                discovered: crate::spout::order::name_bytes(senders@),
                ..old(self)@
            }),
            old(self)@.wf() ==> final(self)@.wf(),
    {
        self.discovered = senders;
    }

    /// Follows another sender, starting with the next poll.
    pub fn select(&mut self, sender: SenderName, now: Instant)
        ensures
            final(self)@ == (ReceiverState {
                selected: Some(sender@),
                current: None,
                next_metadata_poll: now,
                next_discovery: now,
                ..old(self)@
            }),
            final(self)@.wf(),
    {
        self.selected = Some(sender);
        self.current = None;
        self.next_metadata_poll = now;
        self.next_discovery = now;
    }

    fn schedule_metadata_poll(&mut self, now: Instant, connected: bool)
        requires
            schedulable(now),
        ensures
            final(self)@ == old(self)@.scheduled(now, connected),
    {
        self.next_metadata_poll = now + metadata_poll_interval(connected);
    }

    fn unfound(&mut self, started: Option<Instant>) -> (action: PollAction)
        requires
            started matches Some(started) ==> schedulable(started),
        ensures
            (final(self)@, action@) == old(self)@.unfound(started),
    {
        match started {
            Some(started) => self.schedule_metadata_poll(started, false),
            None => {},
        }
        PollAction::Done(Ok(false))
    }

    fn candidate(
        &mut self,
        started: Option<Instant>,
        names: Vec<SenderName>,
        at: usize,
    ) -> (action: PollAction)
        requires
            started matches Some(started) ==> schedulable(started),
        ensures
            (final(self)@, action@) == old(self)@.candidate(
                started,
                crate::spout::order::name_bytes(names@),
                at as int,
            ),
            action@ matches PollStep::Read(stage) ==> stage.wf(),
    {
        if at < names.len() {
            PollAction::Read(PendingRead { stage: Stage::Candidate { names, at, since: started } })
        } else {
            self.unfound(started)
        }
    }

    fn discover_sender(&mut self, started: Option<Instant>, now: Instant) -> (action: PollAction)
        requires
            schedulable(now),
            started matches Some(started) ==> schedulable(started),
        ensures
            (final(self)@, action@) == old(self)@.discover(started, now),
            action@ matches PollStep::Read(stage) ==> stage.wf(),
    {
        if now.nanos < self.next_discovery.nanos {
            return self.unfound(started);
        }
        self.next_discovery = now + Duration::from_millis(CANDIDATE_RETRY_MILLIS);
        let names = sort_names(&self.discovered);
        self.candidate(started, names, 0)
    }

    fn selected_read(
        &mut self,
        started: Instant,
        outcome: Result<SenderInfo, SpoutError>,
        now: Instant,
    ) -> (action: PollAction)
        requires
            schedulable(now),
            schedulable(started),
        ensures
            (final(self)@, action@) == old(self)@.selected_read(started, outcome, now),
            action@ matches PollStep::Read(stage) ==> stage.wf(),
    {
        match outcome {
            Ok(info) => {
                if info.is_usable() {
                    let changed = match &self.current {
                        Some(current) => resource_changed(current, &info),
                        None => true,
                    };
                    if changed {
                        self.generation = self.generation.wrapping_add(1);
                    }
                    self.current = Some(info);
                    self.schedule_metadata_poll(started, true);
                    PollAction::Done(Ok(true))
                } else {
                    self.current = None;
                    self.schedule_metadata_poll(started, false);
                    PollAction::Done(Ok(false))
                }
            },
            Err(error) => match error.kind() {
                ErrorKind::NotFound => {
                    self.current = None;
                    self.discover_sender(Some(started), now)
                },
                ErrorKind::WouldBlock => PollAction::Done(Ok(self.current.is_some())),
                _ => PollAction::Done(Err(error)),
            },
        }
    }

    fn candidate_read(
        &mut self,
        started: Option<Instant>,
        names: Vec<SenderName>,
        at: usize,
        outcome: Result<SenderInfo, SpoutError>,
        now: Instant,
    ) -> (action: PollAction)
        requires
            schedulable(now),
            started matches Some(started) ==> schedulable(started),
            at < names@.len(),
        ensures
            (final(self)@, action@) == old(self)@.candidate_read(
                started,
                crate::spout::order::name_bytes(names@),
                at as int,
                outcome,
                now,
            ),
            action@ matches PollStep::Read(stage) ==> stage.wf(),
    {
        assert(names@.len() == names.len());
        match outcome {
            Ok(info) => {
                if info.is_usable() {
                    self.selected = Some(names[at].clone());
                    self.current = Some(info);
                    self.generation = self.generation.wrapping_add(1);
                    let since = match started {
                        Some(started) => started,
                        None => now,
                    };
                    self.schedule_metadata_poll(since, true);
                    PollAction::Done(Ok(true))
                } else {
                    self.candidate(started, names, at + 1)
                }
            },
            Err(error) => match error.kind() {
                ErrorKind::NotFound => self.candidate(started, names, at + 1),
                ErrorKind::WouldBlock => self.candidate(started, names, at + 1),
                _ => PollAction::Done(Err(error)),
            },
        }
    }

    /// Takes a poll one step further. A poll starts with [`PollEvent::Start`]; whenever it asks
    /// for a description, the description is read and handed back, until the poll is done.
    pub fn poll(&mut self, event: PollEvent, now: Instant) -> (action: PollAction)
        requires
            schedulable(now),
            event matches PollEvent::Read { pending, .. } ==> pending@.wf(),
        ensures
            (final(self)@, action@) == match event {
                PollEvent::Start => old(self)@.begin(now),
                PollEvent::Read { pending, outcome } => old(self)@.resume(pending@, outcome, now),
            },
            action@ matches PollStep::Read(stage) ==> stage.wf(),
            old(self)@.wf() && (event matches PollEvent::Read { pending, .. } && pending@ is Selected
                ==> old(self)@.selected is Some) ==> final(self)@.wf(),
    {
        match event {
            PollEvent::Start => {
                if now.nanos < self.next_metadata_poll.nanos {
                    return PollAction::Done(Ok(self.current.is_some()));
                }
                let connected = self.current.is_some();
                self.schedule_metadata_poll(now, connected);
                match &self.selected {
                    None => self.discover_sender(None, now),
                    Some(name) => PollAction::Read(
                        PendingRead { stage: Stage::Selected { name: name.clone(), started: now } },
                    ),
                }
            },
            PollEvent::Read { pending, outcome } => match pending.stage {
                Stage::Selected { name: _, started } => self.selected_read(started, outcome, now),
                Stage::Candidate { names, at, since } => self.candidate_read(
                    since,
                    names,
                    at,
                    outcome,
                    now,
                ),
            },
        }
    }

    /// The sender that is followed.
    pub fn current_name(&self) -> (name: Option<&SenderName>)
        ensures
            match name {
                Some(name) => self@.selected == Some(name@),
                None => self@.selected is None,
            },
    {
        match &self.selected {
            Some(name) => Some(name),
            None => None,
        }
    }

    /// The handle of the connected texture; zero while there is none.
    pub fn sender_handle(&self) -> (handle: isize)
        ensures
            handle == match self@.current {
                Some(info) => info.signed_handle(),
                None => 0,
            },
    {
        match &self.current {
            Some(info) => info.raw_handle(),
            None => 0,
        }
    }

    /// A number that changes whenever another texture is connected.
    pub fn generation(&self) -> (generation: u64)
        ensures
            generation == self@.generation,
    {
        self.generation
    }
}

/// What every sender's description would show during a poll.
pub type Senders = spec_fn(Seq<u8>) -> Result<SenderInfo, SpoutError>;

/// How much of a poll is left at most.
pub open spec fn remaining_reads(state: ReceiverState, step: PollStep) -> int {
    match step {
        PollStep::Done(_) => 0,
        PollStep::Read(ReadStage::Selected { .. }) => state.discovered.len() as int + 1,
        PollStep::Read(ReadStage::Candidate { names, at, .. }) => if at < names.len() {
            names.len() - at
        } else {
            1
        },
    }
}

/// How a poll ends that has come to `step`, when `senders` says what each description shows and
/// the clock stands at `now`.
pub open spec fn poll_run(
    state: ReceiverState,
    step: PollStep,
    senders: Senders,
    now: Instant,
) -> (ReceiverState, Result<bool, SpoutError>)
    decreases remaining_reads(state, step),
{
    match step {
        PollStep::Done(result) => (state, result),
        PollStep::Read(stage) => {
            proof {
                crate::spout::order::by_name_is_ordered(state.discovered);
            }
            let (next, further) = state.resume(stage, senders(stage.target()), now);
            poll_run(next, further, senders, now)
        },
    }
}

/// A whole poll.
pub open spec fn whole_poll(state: ReceiverState, senders: Senders, now: Instant) -> (
    ReceiverState,
    Result<bool, SpoutError>,
) {
    let (first, step) = state.begin(now);
    poll_run(first, step, senders, now)
}

/// Nothing stands in the way of the candidates behind this one.
pub open spec fn passed_over(outcome: Result<SenderInfo, SpoutError>) -> bool {
    match outcome {
        Ok(info) => !info.usable(),
        Err(error) => error.kind_of() == ErrorKind::NotFound || error.kind_of()
            == ErrorKind::WouldBlock,
    }
}

/// A sender that can be connected.
pub open spec fn valid_sender(outcome: Result<SenderInfo, SpoutError>) -> bool {
    outcome is Ok && outcome->Ok_0.usable()
}

/// Every step of a poll keeps the receiver sound: only a sender that is followed and can be
/// shown is connected.
pub proof fn polls_keep_the_receiver_sound(
    state: ReceiverState,
    stage: ReadStage,
    outcome: Result<SenderInfo, SpoutError>,
    now: Instant,
)
    requires
        state.wf(),
        stage is Selected ==> state.selected is Some,
    ensures
        state.begin(now).0.wf(),
        state.resume(stage, outcome, now).0.wf(),
{
}

proof fn candidates_are_tried_in_order(
    state: ReceiverState,
    started: Option<Instant>,
    names: Seq<Seq<u8>>,
    at: int,
    first: int,
    senders: Senders,
    now: Instant,
)
    requires
        0 <= at <= first < names.len(),
        forall|i: int| at <= i < first ==> passed_over(senders(#[trigger] names[i])),
    ensures
        poll_run(
            state,
            PollStep::Read(ReadStage::Candidate { names, at, since: started }),
            senders,
            now,
        ) == poll_run(
            state,
            PollStep::Read(ReadStage::Candidate { names, at: first, since: started }),
            senders,
            now,
        ),
    decreases first - at,
{
    if at < first {
        assert(passed_over(senders(names[at])));
        candidates_are_tried_in_order(state, started, names, at + 1, first, senders, now);
    }
}

/// The sender `name` is known and can be connected, while every known sender that comes before it
/// is gone, busy or cannot be shown.
pub open spec fn first_valid(discovered: Seq<Seq<u8>>, name: Seq<u8>, senders: Senders) -> bool {
    &&& discovered.contains(name)
    &&& valid_sender(senders(name))
    &&& forall|other: Seq<u8>|
        #[trigger] discovered.contains(other) && other != name && crate::spout::order::name_le(
            other,
            name,
        ) ==> passed_over(senders(other))
}

/// Every known sender is gone, busy or cannot be shown.
pub open spec fn none_valid(discovered: Seq<Seq<u8>>, senders: Senders) -> bool {
    forall|other: Seq<u8>| #[trigger] discovered.contains(other) ==> passed_over(senders(other))
}

proof fn search_finds_the_first_valid_sender(
    state: ReceiverState,
    started: Option<Instant>,
    name: Seq<u8>,
    senders: Senders,
    now: Instant,
)
    requires
        first_valid(state.discovered, name, senders),
    ensures
        ({
            let (tried, step) = state.candidate(
                started,
                crate::spout::order::by_name(state.discovered),
                0,
            );
            let since = match started {
                Some(started) => started,
                None => now,
            };
            poll_run(tried, step, senders, now) == (
                state.connected_to(name, senders(name)->Ok_0).scheduled(since, true),
                Ok::<bool, SpoutError>(true),
            )
        }),
{
    broadcast use vstd::seq_lib::group_to_multiset_ensures;

    let names = crate::spout::order::by_name(state.discovered);
    crate::spout::order::by_name_is_ordered(state.discovered);
    assert(names.to_multiset().count(name) > 0);
    assert(names.contains(name));
    let first = names.index_of_first(name)->0;
    names.index_of_first_ensures(name);
    assert(0 <= first < names.len() && names[first] == name);
    assert forall|i: int| 0 <= i < first implies passed_over(senders(#[trigger] names[i])) by {
        assert(names.contains(names[i]));
        assert(state.discovered.to_multiset().count(names[i]) > 0);
        assert(state.discovered.contains(names[i]));
        assert(crate::spout::order::name_le(names[i], names[first]));
    }
    candidates_are_tried_in_order(state, started, names, 0, first, senders, now);
    let stage = ReadStage::Candidate { names, at: first, since: started };
    let (after, done) = state.resume(stage, senders(name), now);
    assert(poll_run(state, PollStep::Read(stage), senders, now) == poll_run(
        after,
        done,
        senders,
        now,
    ));
}

proof fn search_runs_out(
    state: ReceiverState,
    started: Option<Instant>,
    senders: Senders,
    now: Instant,
)
    requires
        none_valid(state.discovered, senders),
    ensures
        ({
            let (tried, step) = state.candidate(
                started,
                crate::spout::order::by_name(state.discovered),
                0,
            );
            poll_run(tried, step, senders, now) == (
                state.unfound(started).0,
                Ok::<bool, SpoutError>(false),
            )
        }),
{
    broadcast use vstd::seq_lib::group_to_multiset_ensures;

    let names = crate::spout::order::by_name(state.discovered);
    crate::spout::order::by_name_is_ordered(state.discovered);
    if names.len() > 0 {
        assert forall|i: int| 0 <= i < names.len() implies passed_over(
            senders(#[trigger] names[i]),
        ) by {
            assert(names.contains(names[i]));
            assert(state.discovered.to_multiset().count(names[i]) > 0);
            assert(state.discovered.contains(names[i]));
        }
        let last = names.len() - 1;
        candidates_are_tried_in_order(state, started, names, 0, last, senders, now);
        let stage = ReadStage::Candidate { names, at: last, since: started };
        assert(passed_over(senders(names[last])));
        let (after, done) = state.resume(stage, senders(names[last]), now);
        assert(poll_run(state, PollStep::Read(stage), senders, now) == poll_run(
            after,
            done,
            senders,
            now,
        ));
    }
}

/// A receiver that follows nobody connects the first valid sender by name: one that can be
/// connected, while every known sender that comes before it is gone, busy or cannot be shown.
pub proof fn first_valid_sender_by_name_is_connected(
    state: ReceiverState,
    name: Seq<u8>,
    senders: Senders,
    now: Instant,
)
    requires
        state.selected is None,
        now.nanos >= state.next_metadata_poll.nanos,
        now.nanos >= state.next_discovery.nanos,
        first_valid(state.discovered, name, senders),
    ensures
        ({
            let (after, result) = whole_poll(state, senders, now);
            &&& result == Ok::<bool, SpoutError>(true)
            &&& after.selected == Some(name)
            &&& after.current == Some(senders(name)->Ok_0)
            &&& after.generation == state.renewed().generation
            &&& after.next_metadata_poll.nanos == (now.nanos + poll_nanos(true)) as u64
        }),
{
    search_finds_the_first_valid_sender(state.begin(now).0, None, name, senders, now);
}

/// When the followed sender is gone and senders may be looked for, the first valid sender by
/// name takes its place, and its texture counts as a new one.
pub proof fn gone_sender_gives_way_to_the_first_valid_one(
    state: ReceiverState,
    gone: Seq<u8>,
    name: Seq<u8>,
    senders: Senders,
    now: Instant,
)
    requires
        state.selected == Some(gone),
        now.nanos >= state.next_metadata_poll.nanos,
        now.nanos >= state.next_discovery.nanos,
        senders(gone) matches Err(error) && error.kind_of() == ErrorKind::NotFound,
        first_valid(state.discovered, name, senders),
    ensures
        ({
            let (after, result) = whole_poll(state, senders, now);
            &&& result == Ok::<bool, SpoutError>(true)
            &&& after.selected == Some(name)
            &&& after.current == Some(senders(name)->Ok_0)
            &&& after.generation == state.renewed().generation
            &&& after.next_metadata_poll.nanos == (now.nanos + poll_nanos(true)) as u64
        }),
{
    let (begun, step) = state.begin(now);
    let stage = ReadStage::Selected { name: gone, started: now };
    let (lost, further) = begun.resume(stage, senders(gone), now);
    assert(poll_run(begun, step, senders, now) == poll_run(lost, further, senders, now));
    search_finds_the_first_valid_sender(lost, Some(now), name, senders, now);
}

/// While no known sender can be connected, a receiver that follows nobody stays unconnected.
pub proof fn nobody_is_connected_without_a_valid_sender(
    state: ReceiverState,
    senders: Senders,
    now: Instant,
)
    requires
        state.selected is None,
        state.current is None,
        none_valid(state.discovered, senders),
    ensures
        whole_poll(state, senders, now).1 == Ok::<bool, SpoutError>(false),
        whole_poll(state, senders, now).0.selected is None,
        whole_poll(state, senders, now).0.current is None,
        whole_poll(state, senders, now).0.generation == state.generation,
{
    search_runs_out(state.begin(now).0, None, senders, now);
}

/// A sender that is followed and comes back is connected again, and its texture counts as a new
/// one.
pub proof fn returning_sender_is_connected_again(
    state: ReceiverState,
    name: Seq<u8>,
    senders: Senders,
    now: Instant,
)
    requires
        state.selected == Some(name),
        state.current is None,
        now.nanos >= state.next_metadata_poll.nanos,
        valid_sender(senders(name)),
    ensures
        ({
            let (after, result) = whole_poll(state, senders, now);
            &&& result == Ok::<bool, SpoutError>(true)
            &&& after.selected == Some(name)
            &&& after.current == Some(senders(name)->Ok_0)
            &&& after.generation == state.renewed().generation
        }),
{
    let (begun, step) = state.begin(now);
    let stage = ReadStage::Selected { name, started: now };
    let (after, done) = begun.resume(stage, senders(name), now);
    assert(poll_run(begun, step, senders, now) == poll_run(after, done, senders, now));
}

/// A sender that is followed and is gone is no longer connected, and goes on being followed
/// while no other sender can be connected.
pub proof fn lost_sender_is_still_followed(
    state: ReceiverState,
    name: Seq<u8>,
    senders: Senders,
    now: Instant,
)
    requires
        state.selected == Some(name),
        now.nanos >= state.next_metadata_poll.nanos,
        senders(name) matches Err(error) && error.kind_of() == ErrorKind::NotFound,
        none_valid(state.discovered, senders),
    ensures
        whole_poll(state, senders, now).1 == Ok::<bool, SpoutError>(false),
        whole_poll(state, senders, now).0.selected == Some(name),
        whole_poll(state, senders, now).0.current is None,
        whole_poll(state, senders, now).0.generation == state.generation,
{
    let (begun, step) = state.begin(now);
    let stage = ReadStage::Selected { name, started: now };
    let (lost, further) = begun.resume(stage, senders(name), now);
    assert(poll_run(begun, step, senders, now) == poll_run(lost, further, senders, now));
    search_runs_out(lost, Some(now), senders, now);
}

/// A busy description changes nothing but the time of the next look: the connected sender stays
/// connected.
pub proof fn busy_sender_stays_connected(
    state: ReceiverState,
    name: Seq<u8>,
    senders: Senders,
    now: Instant,
)
    requires
        state.selected == Some(name),
        now.nanos >= state.next_metadata_poll.nanos,
        senders(name) matches Err(error) && error.kind_of() == ErrorKind::WouldBlock,
    ensures
        whole_poll(state, senders, now) == (
            state.scheduled(now, state.current is Some),
            Ok::<bool, SpoutError>(state.current is Some),
        ),
{
    let (begun, step) = state.begin(now);
    let stage = ReadStage::Selected { name, started: now };
    let (after, done) = begun.resume(stage, senders(name), now);
    assert(poll_run(begun, step, senders, now) == poll_run(after, done, senders, now));
}

/// Between two looks nothing is read, and the answer stays what it was.
pub proof fn early_polls_read_nothing(state: ReceiverState, senders: Senders, now: Instant)
    requires
        now.nanos < state.next_metadata_poll.nanos,
    ensures
        whole_poll(state, senders, now) == (state, Ok::<bool, SpoutError>(state.current is Some)),
{
}

/// The generation changes exactly when another texture is connected, even one with the same
/// handle.
pub proof fn generation_tells_textures_apart(state: ReceiverState, info: SenderInfo)
    ensures
        state.updated(info).generation != state.generation <==> (state.current is None
            || crate::spout::another_resource(state.current->0, info)),
{
}

/// Every due look at a followed sender takes over what its description shows, as long as that can
/// be opened, whatever was connected before. The texture counts as a new one exactly when none was
/// connected or any number of its description is another one, and the next look is a tenth of a
/// second away.
pub proof fn followed_sender_is_kept_up_to_date(
    state: ReceiverState,
    name: Seq<u8>,
    info: SenderInfo,
    senders: Senders,
    now: Instant,
)
    requires
        state.selected == Some(name),
        now.nanos >= state.next_metadata_poll.nanos,
        senders(name) == Ok::<SenderInfo, SpoutError>(info),
        info.share_handle != 0,
        info.share_handle != 0xFFFF_FFFF,
        info.width > 0,
        info.height > 0,
        schedulable(now),
    ensures
        ({
            let (after, result) = whole_poll(state, senders, now);
            &&& result == Ok::<bool, SpoutError>(true)
            &&& after.current == Some(info)
            &&& after.selected == Some(name)
            &&& after.discovered == state.discovered
            &&& after.next_discovery == state.next_discovery
            &&& after.next_metadata_poll.nanos == now.nanos + 100_000_000
            &&& state.current is None ==> after.generation != state.generation
            &&& state.current matches Some(previous) ==> (after.generation == state.generation
                <==> previous.share_handle == info.share_handle && previous.width == info.width
                && previous.height == info.height && previous.format == info.format
                && previous.usage == info.usage && previous.partner_id == info.partner_id)
        }),
{
    let (begun, step) = state.begin(now);
    let stage = ReadStage::Selected { name, started: now };
    let (after, done) = begun.resume(stage, senders(name), now);
    assert(poll_run(begun, step, senders, now) == poll_run(after, done, senders, now));
}

/// A followed sender whose texture cannot be opened is disconnected and goes on being followed;
/// nobody else is looked for, and the next look is half a second away.
pub proof fn unusable_sender_is_disconnected(
    state: ReceiverState,
    name: Seq<u8>,
    info: SenderInfo,
    senders: Senders,
    now: Instant,
)
    requires
        state.selected == Some(name),
        now.nanos >= state.next_metadata_poll.nanos,
        senders(name) == Ok::<SenderInfo, SpoutError>(info),
        info.share_handle == 0 || info.share_handle == 0xFFFF_FFFF || info.width == 0 || info.height
            == 0,
        schedulable(now),
    ensures
        ({
            let (after, result) = whole_poll(state, senders, now);
            &&& result == Ok::<bool, SpoutError>(false)
            &&& after.current is None
            &&& after.selected == Some(name)
            &&& after.generation == state.generation
            &&& after.discovered == state.discovered
            &&& after.next_discovery == state.next_discovery
            &&& after.next_metadata_poll.nanos == now.nanos + 500_000_000
        }),
{
    let (begun, step) = state.begin(now);
    let stage = ReadStage::Selected { name, started: now };
    let (after, done) = begun.resume(stage, senders(name), now);
    assert(poll_run(begun, step, senders, now) == poll_run(after, done, senders, now));
}

/// A failure of any other kind than a gone or busy sender is reported, and what is connected stays
/// connected.
pub proof fn failed_looks_are_reported(
    state: ReceiverState,
    name: Seq<u8>,
    error: SpoutError,
    senders: Senders,
    now: Instant,
)
    requires
        state.selected == Some(name),
        now.nanos >= state.next_metadata_poll.nanos,
        senders(name) == Err::<SenderInfo, SpoutError>(error),
        error.kind_of() != ErrorKind::NotFound,
        error.kind_of() != ErrorKind::WouldBlock,
        schedulable(now),
    ensures
        ({
            let (after, result) = whole_poll(state, senders, now);
            &&& result == Err::<bool, SpoutError>(error)
            &&& after.current == state.current
            &&& after.selected == state.selected
            &&& after.generation == state.generation
            &&& after.next_discovery == state.next_discovery
            &&& state.current is Some ==> after.next_metadata_poll.nanos == now.nanos + 100_000_000
            &&& state.current is None ==> after.next_metadata_poll.nanos == now.nanos + 500_000_000
        }),
{
    let (begun, step) = state.begin(now);
    let stage = ReadStage::Selected { name, started: now };
    let (after, done) = begun.resume(stage, senders(name), now);
    assert(poll_run(begun, step, senders, now) == poll_run(after, done, senders, now));
}

/// A sender is looked for at most every half second: before that, a receiver that follows nobody
/// or whose sender is gone stays unconnected, whoever could be connected.
pub proof fn searches_keep_their_distance(
    state: ReceiverState,
    name: Seq<u8>,
    senders: Senders,
    now: Instant,
)
    requires
        state.selected is None && state.current is None || state.selected == Some(name) && (senders(
            name,
        ) matches Err(error) && error.kind_of() == ErrorKind::NotFound),
        now.nanos >= state.next_metadata_poll.nanos,
        now.nanos < state.next_discovery.nanos,
        schedulable(now),
    ensures
        ({
            let (after, result) = whole_poll(state, senders, now);
            &&& result == Ok::<bool, SpoutError>(false)
            &&& after.current is None
            &&& after.selected == state.selected
            &&& after.generation == state.generation
            &&& after.next_discovery == state.next_discovery
            &&& after.next_metadata_poll.nanos == now.nanos + 500_000_000
        }),
{
    let (begun, step) = state.begin(now);
    if state.selected is Some {
        let stage = ReadStage::Selected { name, started: now };
        let (lost, further) = begun.resume(stage, senders(name), now);
        assert(poll_run(begun, step, senders, now) == poll_run(lost, further, senders, now));
    }
}

/// A search that finds a sender or none puts the next search off by half a second; a sender that
/// was found is looked at again after a tenth of a second, and otherwise the next look is half a
/// second away.
pub proof fn searches_put_off_the_next_one(
    state: ReceiverState,
    name: Seq<u8>,
    senders: Senders,
    now: Instant,
)
    requires
        state.selected is None,
        state.current is None,
        now.nanos >= state.next_metadata_poll.nanos,
        now.nanos >= state.next_discovery.nanos,
        schedulable(now),
    ensures
        first_valid(state.discovered, name, senders) ==> {
            let after = whole_poll(state, senders, now).0;
            &&& after.next_discovery.nanos == now.nanos + 500_000_000
            &&& after.next_metadata_poll.nanos == now.nanos + 100_000_000
            &&& after.generation != state.generation
            &&& after.discovered == state.discovered
        },
        none_valid(state.discovered, senders) ==> {
            let after = whole_poll(state, senders, now).0;
            &&& after.next_discovery.nanos == now.nanos + 500_000_000
            &&& after.next_metadata_poll.nanos == now.nanos + 500_000_000
            &&& after.discovered == state.discovered
        },
{
    if first_valid(state.discovered, name, senders) {
        search_finds_the_first_valid_sender(state.begin(now).0, None, name, senders, now);
    }
    if none_valid(state.discovered, senders) {
        search_runs_out(state.begin(now).0, None, senders, now);
    }
}

/// A gone sender gives way to another one with a new generation, or is looked for again after half
/// a second, and so is any other sender.
pub proof fn lost_senders_are_looked_for_again(
    state: ReceiverState,
    gone: Seq<u8>,
    name: Seq<u8>,
    senders: Senders,
    now: Instant,
)
    requires
        state.selected == Some(gone),
        senders(gone) matches Err(error) && error.kind_of() == ErrorKind::NotFound,
        now.nanos >= state.next_metadata_poll.nanos,
        now.nanos >= state.next_discovery.nanos,
        schedulable(now),
    ensures
        first_valid(state.discovered, name, senders) ==> {
            let after = whole_poll(state, senders, now).0;
            &&& after.next_discovery.nanos == now.nanos + 500_000_000
            &&& after.next_metadata_poll.nanos == now.nanos + 100_000_000
            &&& after.generation != state.generation
        },
        none_valid(state.discovered, senders) ==> {
            let after = whole_poll(state, senders, now).0;
            &&& after.next_discovery.nanos == now.nanos + 500_000_000
            &&& after.next_metadata_poll.nanos == now.nanos + 500_000_000
        },
{
    let (begun, step) = state.begin(now);
    let stage = ReadStage::Selected { name: gone, started: now };
    let (lost, further) = begun.resume(stage, senders(gone), now);
    assert(poll_run(begun, step, senders, now) == poll_run(lost, further, senders, now));
    if first_valid(state.discovered, name, senders) {
        search_finds_the_first_valid_sender(lost, Some(now), name, senders, now);
    }
    if none_valid(state.discovered, senders) {
        search_runs_out(lost, Some(now), senders, now);
    }
}

/// The sender `name` is known and its description fails in a way of its own, while every known
/// sender that comes before it is gone, busy or cannot be shown.
pub open spec fn first_broken(discovered: Seq<Seq<u8>>, name: Seq<u8>, senders: Senders) -> bool {
    &&& discovered.contains(name)
    &&& senders(name) is Err
    &&& !passed_over(senders(name))
    &&& forall|other: Seq<u8>|
        #[trigger] discovered.contains(other) && other != name && crate::spout::order::name_le(
            other,
            name,
        ) ==> passed_over(senders(other))
}

/// A candidate whose description fails in a way of its own ends the search, and the failure is
/// reported.
pub proof fn broken_candidate_is_reported(
    state: ReceiverState,
    name: Seq<u8>,
    senders: Senders,
    now: Instant,
)
    requires
        state.selected is None,
        now.nanos >= state.next_metadata_poll.nanos,
        now.nanos >= state.next_discovery.nanos,
        first_broken(state.discovered, name, senders),
    ensures
        whole_poll(state, senders, now).1 == Err::<bool, SpoutError>(senders(name)->Err_0),
        whole_poll(state, senders, now).0.selected is None,
        whole_poll(state, senders, now).0.current == state.current,
        whole_poll(state, senders, now).0.generation == state.generation,
{
    broadcast use vstd::seq_lib::group_to_multiset_ensures;

    let begun = state.begin(now).0;
    let names = crate::spout::order::by_name(state.discovered);
    crate::spout::order::by_name_is_ordered(state.discovered);
    assert(names.to_multiset().count(name) > 0);
    assert(names.contains(name));
    let first = names.index_of_first(name)->0;
    names.index_of_first_ensures(name);
    assert(0 <= first < names.len() && names[first] == name);
    assert forall|i: int| 0 <= i < first implies passed_over(senders(#[trigger] names[i])) by {
        assert(names.contains(names[i]));
        assert(state.discovered.to_multiset().count(names[i]) > 0);
        assert(state.discovered.contains(names[i]));
        assert(crate::spout::order::name_le(names[i], names[first]));
    }
    candidates_are_tried_in_order(begun, None, names, 0, first, senders, now);
    let stage = ReadStage::Candidate { names, at: first, since: None };
    let (after, done) = begun.resume(stage, senders(name), now);
    assert(poll_run(begun, PollStep::Read(stage), senders, now) == poll_run(
        after,
        done,
        senders,
        now,
    ));
}

/// A description is read for the sender that is followed, or for the known senders from the first
/// by name on.
pub proof fn polls_read_the_right_descriptions(state: ReceiverState, now: Instant)
    requires
        now.nanos >= state.next_metadata_poll.nanos,
    ensures
        state.selected matches Some(name) ==> {
            &&& state.begin(now).1 matches PollStep::Read(stage)
            &&& stage is Selected
            &&& stage.target() == name
        },
        state.selected is None && now.nanos >= state.next_discovery.nanos && state.discovered.len()
            > 0 ==> {
            &&& state.begin(now).1 matches PollStep::Read(stage)
            &&& state.discovered.contains(stage.target())
            &&& forall|other: Seq<u8>| #[trigger]
                state.discovered.contains(other) ==> crate::spout::order::name_le(
                    stage.target(),
                    other,
                )
        },
{
    broadcast use vstd::seq_lib::group_to_multiset_ensures;

    let names = crate::spout::order::by_name(state.discovered);
    crate::spout::order::by_name_is_ordered(state.discovered);
    if state.discovered.len() > 0 {
        assert(names.len() == state.discovered.len());
        assert(names.contains(names[0]));
        assert(state.discovered.to_multiset().count(names[0]) > 0);
        assert forall|other: Seq<u8>| #[trigger]
            state.discovered.contains(other) implies crate::spout::order::name_le(
            names[0],
            other,
        ) by {
            assert(names.to_multiset().count(other) > 0);
            let at = choose|at: int| 0 <= at < names.len() && names[at] == other;
            assert(names.contains(other));
            assert(0 <= at < names.len() && names[at] == other);
            if at == 0 {
                crate::spout::order::names_are_totally_ordered();
                assert(crate::spout::order::name_order()(other, other));
            } else {
                assert(crate::spout::order::name_le(names[0], names[at]));
            }
        }
    }
}

/// The next look is counted from the beginning of the poll, however long the descriptions took:
/// a tenth of a second for a sender that can be connected, and half a second otherwise. The next
/// search is counted from the search itself.
pub proof fn looks_are_counted_from_the_beginning(
    state: ReceiverState,
    name: Seq<u8>,
    names: Seq<Seq<u8>>,
    at: int,
    started: Instant,
    info: SenderInfo,
    error: SpoutError,
    now: Instant,
)
    requires
        schedulable(started),
        schedulable(now),
        error.kind_of() == ErrorKind::NotFound,
        0 <= at < names.len(),
    ensures
        ({
            let stage = ReadStage::Selected { name, started };
            let read = state.resume(stage, Ok(info), now).0;
            &&& info.usable() ==> read.next_metadata_poll.nanos == started.nanos + 100_000_000
            &&& !info.usable() ==> read.next_metadata_poll.nanos == started.nanos + 500_000_000
            &&& read.next_discovery == state.next_discovery
        }),
        ({
            let stage = ReadStage::Selected { name, started };
            let (lost, step) = state.resume(stage, Err(error), now);
            &&& lost.current is None
            &&& lost.selected == state.selected
            &&& now.nanos < state.next_discovery.nanos ==> step == PollStep::Done(
                Ok::<bool, SpoutError>(false),
            ) && lost.next_metadata_poll.nanos == started.nanos + 500_000_000
                && lost.next_discovery == state.next_discovery
            &&& now.nanos >= state.next_discovery.nanos ==> lost.next_discovery.nanos == now.nanos
                + 500_000_000
        }),
        ({
            let stage = ReadStage::Candidate { names, at, since: Some(started) };
            let found = state.resume(stage, Ok(info), now).0;
            let missed = state.resume(stage, Err(error), now);
            &&& info.usable() ==> found.next_metadata_poll.nanos == started.nanos + 100_000_000
            &&& info.usable() ==> found.selected == Some(names[at]) && found.current == Some(info)
            &&& at + 1 == names.len() ==> missed.1 == PollStep::Done(Ok::<bool, SpoutError>(false))
                && missed.0.next_metadata_poll.nanos == started.nanos + 500_000_000
            &&& at + 1 < names.len() ==> missed == (
                state,
                PollStep::Read(ReadStage::Candidate { names, at: at + 1, since: Some(started) }),
            )
        }),
        ({
            let stage = ReadStage::Candidate { names, at, since: None };
            let found = state.resume(stage, Ok(info), now).0;
            let missed = state.resume(stage, Err(error), now);
            &&& info.usable() ==> found.next_metadata_poll.nanos == now.nanos + 100_000_000
            &&& missed.0 == state
            &&& at + 1 == names.len() ==> missed.1 == PollStep::Done(Ok::<bool, SpoutError>(false))
        }),
{
    crate::spout::order::by_name_is_ordered(state.discovered);
}

/// Generations count up by one, and start again from zero behind the last number.
pub proof fn generations_count_up(state: ReceiverState, name: Seq<u8>, info: SenderInfo)
    ensures
        state.generation < u64::MAX ==> state.renewed().generation == state.generation + 1,
        state.generation == u64::MAX ==> state.renewed().generation == 0,
        state.connected_to(name, info).generation == state.renewed().generation,
        state.current is None ==> state.updated(info).generation == state.renewed().generation,
{
}

/// While a sender is connected its description is read ten times a second, and otherwise twice.
pub proof fn connected_senders_are_looked_at_more_often(
    state: ReceiverState,
    now: Instant,
    connected: bool,
)
    requires
        schedulable(now),
    ensures
        connected ==> 10 * poll_nanos(connected) == 1_000_000_000,
        !connected ==> 2 * poll_nanos(connected) == 1_000_000_000,
        state.scheduled(now, connected).next_metadata_poll.nanos - now.nanos == poll_nanos(
            connected,
        ),
        now.nanos >= state.next_metadata_poll.nanos && state.selected is Some ==> state.begin(
            now,
        ).0.next_metadata_poll.nanos - now.nanos == poll_nanos(state.current is Some),
{
}

} // verus!
