//! A whole turn of the event loop, step by step: what the program has to do, and what it has to
//! find out before the turn goes on.
use vstd::prelude::*;

use crate::interaction::hotkeys::HotkeyRequests;
use crate::session::{
    AlphaChange, Effect, FrameUpdate, MenuSources, Session, SourceKey, TurnEnd,
};
use crate::spout::receiver::{PendingRead, PollAction, PollEvent};
use crate::spout::{SenderInfo, SenderName, SpoutError};
use crate::time::Instant;
use crate::tray::{TrayChoice, TrayState};

verus! {

/// Something to be done, with its names as bytes.
pub enum OrderModel {
    Follow(Seq<Effect>),
    Menu(crate::session::MenuModel),
    PollFailed(SpoutError),
    ClearMask,
    Visible(bool),
    Tray(TrayState),
    FitWindow,
    ReleaseAlpha,
    ReadAlpha,
    Draw,
    RefreshAlpha(bool),
}

/// Something to be done, of which the turn need not hear again.
pub enum Order {
    /// Let the window follow what commands changed.
    Follow(Vec<Effect>),
    /// Show these sources in the tray menu.
    Menu(MenuSources),
    /// Report that the receiver could not be polled.
    PollFailed(SpoutError),
    /// Forget the alpha mask of the source that was replaced.
    ClearMask,
    /// Show or hide the window.
    Visible(bool),
    /// Show this state in the tray menu.
    Tray(TrayState),
    /// Let the window follow its scale.
    FitWindow,
    /// Give the resources behind the alpha mask back.
    ReleaseAlpha,
    /// Hand on an alpha mask that has come back from the GPU.
    ReadAlpha,
    /// Draw the sender's texture.
    Draw,
    /// Hand on an alpha mask that has come back, and ask for a fresh one if this says so.
    RefreshAlpha(bool),
}

impl View for Order {
    type V = OrderModel;

    open spec fn view(&self) -> OrderModel {
        match self {
            Order::Follow(effects) => OrderModel::Follow(effects@),
            Order::Menu(menu) => OrderModel::Menu(menu@),
            Order::PollFailed(error) => OrderModel::PollFailed(*error),
            Order::ClearMask => OrderModel::ClearMask,
            Order::Visible(visible) => OrderModel::Visible(*visible),
            Order::Tray(state) => OrderModel::Tray(*state),
            Order::FitWindow => OrderModel::FitWindow,
            Order::ReleaseAlpha => OrderModel::ReleaseAlpha,
            Order::ReadAlpha => OrderModel::ReadAlpha,
            Order::Draw => OrderModel::Draw,
            Order::RefreshAlpha(extract) => OrderModel::RefreshAlpha(*extract),
        }
    }
}

pub open spec fn order_models(orders: Seq<Order>) -> Seq<OrderModel> {
    orders.map_values(|order: Order| order@)
}

/// What a turn waits for, with its names as bytes.
pub enum RequestModel {
    TakeSenders,
    ReadDescription(crate::spout::receiver::ReadStage),
    OpenSource(crate::session::SourceModel),
    CreateAlpha,
    TryTexture,
    Present,
    End(crate::session::EndModel),
}

/// What a turn waits for.
pub enum Request {
    /// The latest list of senders.
    TakeSenders,
    /// The description of a sender.
    ReadDescription(PendingRead),
    /// The attempt to open a texture.
    OpenSource(SourceKey),
    /// The attempt to create the resources behind the alpha mask.
    CreateAlpha,
    /// The attempt to lock the sender's texture, and the look at its frame counter.
    TryTexture,
    /// The attempt to present the frame that was drawn.
    Present,
    /// Nothing: the turn is over.
    End(TurnEnd),
}

impl View for Request {
    type V = RequestModel;

    open spec fn view(&self) -> RequestModel {
        match self {
            Request::TakeSenders => RequestModel::TakeSenders,
            Request::ReadDescription(pending) => RequestModel::ReadDescription(pending@),
            Request::OpenSource(source) => RequestModel::OpenSource(source@),
            Request::CreateAlpha => RequestModel::CreateAlpha,
            Request::TryTexture => RequestModel::TryTexture,
            Request::Present => RequestModel::Present,
            Request::End(end) => RequestModel::End(end@),
        }
    }
}

/// What happens to a turn, with its names as bytes.
pub enum EventModel {
    Start { requests: HotkeyRequests, choice: Option<crate::tray::ChoiceModel> },
    Senders(Option<Seq<Seq<u8>>>),
    Description {
        pending: crate::spout::receiver::ReadStage,
        outcome: Result<SenderInfo, SpoutError>,
    },
    Opened { source: crate::session::SourceModel, opened: bool },
    AlphaCreated(bool),
    Texture { owned: bool, new_frame: bool },
    Presented(bool),
}

/// What happens to a turn: it starts, or what it waits for has been found out.
pub enum TurnEvent {
    /// The hotkeys and the tray menu asked for this.
    Start { requests: HotkeyRequests, choice: Option<TrayChoice> },
    Senders(Option<Vec<SenderName>>),
    Description { pending: PendingRead, outcome: Result<SenderInfo, SpoutError> },
    Opened { source: SourceKey, opened: bool },
    AlphaCreated(bool),
    Texture { owned: bool, new_frame: bool },
    Presented(bool),
}

impl View for TurnEvent {
    type V = EventModel;

    open spec fn view(&self) -> EventModel {
        match self {
            TurnEvent::Start { requests, choice } => EventModel::Start {
                requests: *requests,
                choice: crate::tray::choice_model(*choice),
            },
            TurnEvent::Senders(Some(names)) => EventModel::Senders(
                Some(crate::spout::order::name_bytes(names@)),
            ),
            TurnEvent::Senders(None) => EventModel::Senders(None),
            TurnEvent::Description { pending, outcome } => EventModel::Description {
                pending: pending@,
                outcome: *outcome,
            },
            TurnEvent::Opened { source, opened } => EventModel::Opened {
                source: source@,
                opened: *opened,
            },
            TurnEvent::AlphaCreated(created) => EventModel::AlphaCreated(*created),
            TurnEvent::Texture { owned, new_frame } => EventModel::Texture {
                owned: *owned,
                new_frame: *new_frame,
            },
            TurnEvent::Presented(presented) => EventModel::Presented(*presented),
        }
    }
}

/// What a step of a turn comes to.
pub struct StepModel {
    pub state: crate::session::SessionModel,
    pub orders: Seq<OrderModel>,
    pub request: RequestModel,
}

/// What a step of a turn asks the program to do, in order, and what it then waits for.
pub struct TurnStep {
    pub orders: Vec<Order>,
    pub request: Request,
}

/// A command ended the program.
pub open spec fn ends_program(effects: Seq<Effect>) -> bool {
    effects.len() > 0 && effects.last() == Effect::Quit
}

impl crate::session::SessionModel {
    /// The turn is over.
    #[verifier::opaque]
    pub open spec fn end_step(
        self,
        orders: Seq<OrderModel>,
        drawn: bool,
        presented: bool,
        now: Instant,
    ) -> StepModel {
        let (state, end) = self.ended(drawn, presented, now);
        StepModel { state, orders, request: RequestModel::End(end) }
    }

    /// A frame may be wanted.
    #[verifier::opaque]
    pub open spec fn frame_step(self, orders: Seq<OrderModel>, now: Instant) -> StepModel {
        if self.frame_wanted(now) {
            StepModel { state: self, orders, request: RequestModel::TryTexture }
        } else {
            self.end_step(orders, false, false, now)
        }
    }

    /// The alpha mask of the open texture is kept up to date while interaction is on.
    #[verifier::opaque]
    pub open spec fn alpha_step(self, orders: Seq<OrderModel>, now: Instant) -> StepModel {
        if self.shown is None {
            self.end_step(orders, false, false, now)
        } else if !self.interaction.enabled {
            let state = crate::session::SessionModel { alpha_ready: false, ..self };
            state.frame_step(
                orders.push(OrderModel::FitWindow).push(OrderModel::ReleaseAlpha),
                now,
            )
        } else if !self.alpha_ready {
            StepModel {
                state: self,
                orders: orders.push(OrderModel::FitWindow),
                request: RequestModel::CreateAlpha,
            }
        } else {
            self.frame_step(
                orders.push(OrderModel::FitWindow).push(OrderModel::ReadAlpha),
                now,
            )
        }
    }

    /// The window follows what there is to show, and the tray menu follows the window.
    #[verifier::opaque]
    pub open spec fn settle_step(self, orders: Seq<OrderModel>, now: Instant) -> StepModel {
        let state = self.settled();
        let shown = if self.source_ready() == self.available {
            orders
        } else {
            orders.push(OrderModel::Visible(state.visible))
        };
        state.alpha_step(shown.push(OrderModel::Tray(state.tray_state())), now)
    }

    /// The receiver has been polled.
    #[verifier::opaque]
    pub open spec fn polled_step(
        self,
        orders: Seq<OrderModel>,
        result: Result<bool, SpoutError>,
        now: Instant,
    ) -> StepModel {
        let (received, reported) = match result {
            Ok(received) => (received, orders),
            Err(error) => (false, orders.push(OrderModel::PollFailed(error))),
        };
        let listed = if self.receiver.selected != self.menu_selected {
            reported.push(
                OrderModel::Menu(
                    crate::session::MenuModel {
                        names: self.known,
                        selected: self.receiver.selected,
                    },
                ),
            )
        } else {
            reported
        };
        let state = crate::session::SessionModel {
            received,
            menu_selected: self.receiver.selected,
            ..self
        };
        if state.rebuild_due(now) {
            StepModel {
                state,
                orders: listed,
                request: RequestModel::OpenSource(state.wanted()->0),
            }
        } else {
            state.settle_step(listed, now)
        }
    }

    /// The receiver has come one step further.
    #[verifier::opaque]
    pub open spec fn poll_step(
        self,
        orders: Seq<OrderModel>,
        receiver: crate::spout::receiver::ReceiverState,
        step: crate::spout::receiver::PollStep,
        now: Instant,
    ) -> StepModel {
        let state = crate::session::SessionModel { receiver, ..self };
        match step {
            crate::spout::receiver::PollStep::Read(stage) => StepModel {
                state,
                orders,
                request: RequestModel::ReadDescription(stage),
            },
            crate::spout::receiver::PollStep::Done(result) => state.polled_step(
                orders,
                result,
                now,
            ),
        }
    }

    /// The receiver is polled.
    pub open spec fn receive_step(self, orders: Seq<OrderModel>, now: Instant) -> StepModel {
        let (receiver, step) = self.receiver.begin(now);
        self.poll_step(orders, receiver, step, now)
    }

    /// A turn starts with the commands of the hotkeys and the tray menu.
    #[verifier::opaque]
    pub open spec fn start_step(
        self,
        requests: HotkeyRequests,
        choice: Option<crate::tray::ChoiceModel>,
        now: Instant,
    ) -> StepModel {
        let (state, effects) = self.after_commands(requests, choice, now);
        let orders = Seq::<OrderModel>::empty().push(OrderModel::Follow(effects));
        if ends_program(effects) {
            StepModel {
                state,
                orders,
                request: RequestModel::End(crate::session::EndModel::Exit),
            }
        } else if state.refresh_due(now) {
            StepModel { state, orders, request: RequestModel::TakeSenders }
        } else {
            state.receive_step(orders, now)
        }
    }

    /// The list of senders was looked at.
    #[verifier::opaque]
    pub open spec fn senders_step(self, latest: Option<Seq<Seq<u8>>>, now: Instant) -> StepModel {
        let orders = match latest {
            Some(names) => Seq::<OrderModel>::empty().push(
                OrderModel::Menu(
                    crate::session::MenuModel { names, selected: self.receiver.selected },
                ),
            ),
            None => Seq::<OrderModel>::empty(),
        };
        self.refreshed(latest, now).receive_step(orders, now)
    }

    /// The attempt to open a texture has come to an end.
    #[verifier::opaque]
    pub open spec fn opened_step(
        self,
        source: crate::session::SourceModel,
        opened: bool,
        now: Instant,
    ) -> StepModel {
        let orders = if opened {
            Seq::<OrderModel>::empty().push(OrderModel::ClearMask)
        } else {
            Seq::<OrderModel>::empty()
        };
        self.rebuilt(source, opened, now).settle_step(orders, now)
    }

    /// The sender's texture may be read or not, and has news or not.
    #[verifier::opaque]
    pub open spec fn texture_step(self, owned: bool, new_frame: bool, now: Instant) -> StepModel {
        if self.draws(owned, new_frame) {
            let drawn = Seq::<OrderModel>::empty().push(OrderModel::Draw);
            StepModel {
                state: self.drawn(now),
                orders: if self.interaction.enabled && !self.interaction.dragging {
                    drawn.push(OrderModel::RefreshAlpha(self.interaction.alpha_due(now)))
                } else {
                    drawn
                },
                request: RequestModel::Present,
            }
        } else {
            self.end_step(Seq::<OrderModel>::empty(), false, false, now)
        }
    }

    /// A turn goes on with `event`.
    pub open spec fn step(self, event: EventModel, now: Instant) -> StepModel {
        match event {
            EventModel::Start { requests, choice } => self.start_step(requests, choice, now),
            EventModel::Senders(latest) => self.senders_step(latest, now),
            EventModel::Description { pending, outcome } => {
                let (receiver, step) = self.receiver.resume(pending, outcome, now);
                self.poll_step(Seq::<OrderModel>::empty(), receiver, step, now)
            },
            EventModel::Opened { source, opened } => self.opened_step(source, opened, now),
            EventModel::AlphaCreated(created) => self.alpha_created(created).frame_step(
                Seq::<OrderModel>::empty().push(OrderModel::ReadAlpha),
                now,
            ),
            EventModel::Texture { owned, new_frame } => self.texture_step(owned, new_frame, now),
            EventModel::Presented(presented) => self.end_step(
                Seq::<OrderModel>::empty(),
                true,
                presented,
                now,
            ),
        }
    }

    /// The description of a followed sender is only asked for while one is followed.
    pub open spec fn expects(self, event: EventModel) -> bool {
        event matches EventModel::Description { pending, .. } ==> pending.wf() && (pending
            is Selected ==> self.receiver.selected is Some)
    }

    /// Whatever is asked for next fits the state.
    pub open spec fn offers(self, request: RequestModel) -> bool {
        request matches RequestModel::ReadDescription(stage) ==> stage.wf() && (stage is Selected
            ==> self.receiver.selected is Some)
    }
}

fn give(orders: &mut Vec<Order>, order: Order)
    ensures
        order_models(final(orders)@) == order_models(old(orders)@).push(order@),
{
    orders.push(order);
    assert(order_models(orders@) =~= order_models(old(orders)@).push(order@));
}

fn no_orders() -> (orders: Vec<Order>)
    ensures
        order_models(orders@) == Seq::<OrderModel>::empty(),
{
    let orders: Vec<Order> = Vec::new();
    assert(order_models(orders@) =~= Seq::empty());
    orders
}

impl Session {
    /// The step and the state after it are those of the model.
    pub open spec fn comes_to(self, step: TurnStep, model: StepModel) -> bool {
        &&& self@ == model.state
        &&& order_models(step.orders@) == model.orders
        &&& step.request@ == model.request
        &&& self@.wf()
        &&& self@.offers(model.request)
    }

    fn end_step(
        &mut self,
        orders: Vec<Order>,
        update: FrameUpdate,
        presented: bool,
        now: Instant,
    ) -> (step: TurnStep)
        requires
            old(self)@.wf(),
            crate::spout::receiver::schedulable(now),
        ensures
            final(self).comes_to(
                step,
                old(self)@.end_step(
                    order_models(orders@),
                    update == FrameUpdate::Rendered,
                    presented,
                    now,
                ),
            ),
    {
        proof {
            reveal(crate::session::SessionModel::end_step);
        }
        let end = self.finish_turn(update, presented, now);
        TurnStep { orders, request: Request::End(end) }
    }

    fn frame_step(&mut self, orders: Vec<Order>, now: Instant) -> (step: TurnStep)
        requires
            old(self)@.wf(),
            crate::spout::receiver::schedulable(now),
        ensures
            final(self).comes_to(step, old(self)@.frame_step(order_models(orders@), now)),
    {
        proof {
            reveal(crate::session::SessionModel::frame_step);
        }
        if self.wants_frame(now) {
            TurnStep { orders, request: Request::TryTexture }
        } else {
            self.end_step(orders, FrameUpdate::Unchanged, false, now)
        }
    }

    fn alpha_step(&mut self, orders: Vec<Order>, now: Instant) -> (step: TurnStep)
        requires
            old(self)@.wf(),
            crate::spout::receiver::schedulable(now),
        ensures
            final(self).comes_to(step, old(self)@.alpha_step(order_models(orders@), now)),
    {
        proof {
            reveal(crate::session::SessionModel::alpha_step);
        }
        if self.shown.is_none() {
            return self.end_step(orders, FrameUpdate::Unchanged, false, now);
        }
        let mut orders = orders;
        give(&mut orders, Order::FitWindow);
        match self.alpha_needed() {
            AlphaChange::Release => {
                self.alpha_ready = false;
                give(&mut orders, Order::ReleaseAlpha);
                self.frame_step(orders, now)
            },
            AlphaChange::Create => TurnStep { orders, request: Request::CreateAlpha },
            AlphaChange::Keep => {
                give(&mut orders, Order::ReadAlpha);
                self.frame_step(orders, now)
            },
        }
    }

    fn settle_step(&mut self, orders: Vec<Order>, now: Instant) -> (step: TurnStep)
        requires
            old(self)@.wf(),
            crate::spout::receiver::schedulable(now),
        ensures
            final(self).comes_to(step, old(self)@.settle_step(order_models(orders@), now)),
    {
        proof {
            reveal(crate::session::SessionModel::settle_step);
        }
        let mut orders = orders;
        match self.settle_visibility() {
            Some(visible) => give(&mut orders, Order::Visible(visible)),
            None => {},
        }
        give(&mut orders, Order::Tray(self.tray_state()));
        self.alpha_step(orders, now)
    }

    fn polled_step(
        &mut self,
        orders: Vec<Order>,
        result: Result<bool, SpoutError>,
        now: Instant,
    ) -> (step: TurnStep)
        requires
            old(self)@.wf(),
            crate::spout::receiver::schedulable(now),
        ensures
            final(self).comes_to(step, old(self)@.polled_step(order_models(orders@), result, now)),
    {
        proof {
            reveal(crate::session::SessionModel::polled_step);
        }
        let mut orders = orders;
        match result {
            Ok(received) => self.sender_polled(received),
            Err(error) => {
                self.sender_polled(false);
                give(&mut orders, Order::PollFailed(error));
            },
        }
        match self.follow_menu() {
            Some(menu) => give(&mut orders, Order::Menu(menu)),
            None => {},
        }
        match self.rebuild_source(now) {
            Some(source) => TurnStep { orders, request: Request::OpenSource(source) },
            None => self.settle_step(orders, now),
        }
    }

    fn poll_step(&mut self, orders: Vec<Order>, event: PollEvent, now: Instant) -> (step: TurnStep)
        requires
            old(self)@.wf(),
            crate::spout::receiver::schedulable(now),
            event matches PollEvent::Read { pending, .. } ==> pending@.wf() && (pending@ is Selected
                ==> old(self)@.receiver.selected is Some),
        ensures
            ({
                let (receiver, poll) = match event {
                    PollEvent::Start => old(self)@.receiver.begin(now),
                    PollEvent::Read { pending, outcome } => old(self)@.receiver.resume(
                        pending@,
                        outcome,
                        now,
                    ),
                };
                final(self).comes_to(
                    step,
                    old(self)@.poll_step(order_models(orders@), receiver, poll, now),
                )
            }),
    {
        proof {
            reveal(crate::session::SessionModel::poll_step);
        }
        match self.poll_sender(event, now) {
            PollAction::Read(pending) => TurnStep {
                orders,
                request: Request::ReadDescription(pending),
            },
            PollAction::Done(result) => self.polled_step(orders, result, now),
        }
    }

    fn start_step(
        &mut self,
        requests: HotkeyRequests,
        choice: Option<TrayChoice>,
        now: Instant,
    ) -> (step: TurnStep)
        requires
            old(self)@.wf(),
            crate::spout::receiver::schedulable(now),
        ensures
            final(self).comes_to(
                step,
                old(self)@.start_step(requests, crate::tray::choice_model(choice), now),
            ),
    {
        proof {
            reveal(crate::session::SessionModel::start_step);
        }
        let mut orders = no_orders();
        let mut requests = requests;
        let effects = self.take_commands(&mut requests, choice, now);
        let over = effects.len() > 0 && effects[effects.len() - 1] == Effect::Quit;
        give(&mut orders, Order::Follow(effects));
        if over {
            TurnStep { orders, request: Request::End(TurnEnd::Exit) }
        } else if self.refresh_due(now) {
            TurnStep { orders, request: Request::TakeSenders }
        } else {
            self.poll_step(orders, PollEvent::Start, now)
        }
    }

    fn senders_step(&mut self, latest: Option<Vec<SenderName>>, now: Instant) -> (step: TurnStep)
        requires
            old(self)@.wf(),
            crate::spout::receiver::schedulable(now),
        ensures
            final(self).comes_to(
                step,
                old(self)@.senders_step(
                    match latest {
                        Some(names) => Some(crate::spout::order::name_bytes(names@)),
                        None => None,
                    },
                    now,
                ),
            ),
    {
        proof {
            reveal(crate::session::SessionModel::senders_step);
        }
        let mut orders = no_orders();
        match self.refresh_senders(latest, now) {
            Some(menu) => give(&mut orders, Order::Menu(menu)),
            None => {},
        }
        self.poll_step(orders, PollEvent::Start, now)
    }

    fn opened_step(&mut self, source: SourceKey, opened: bool, now: Instant) -> (step: TurnStep)
        requires
            old(self)@.wf(),
            crate::spout::receiver::schedulable(now),
        ensures
            final(self).comes_to(step, old(self)@.opened_step(source@, opened, now)),
    {
        proof {
            reveal(crate::session::SessionModel::opened_step);
        }
        let mut orders = no_orders();
        self.rebuild_finished(source, opened, now);
        if opened {
            give(&mut orders, Order::ClearMask);
        }
        self.settle_step(orders, now)
    }

    fn texture_step(&mut self, owned: bool, new_frame: bool, now: Instant) -> (step: TurnStep)
        requires
            old(self)@.wf(),
            crate::spout::receiver::schedulable(now),
        ensures
            final(self).comes_to(step, old(self)@.texture_step(owned, new_frame, now)),
    {
        proof {
            reveal(crate::session::SessionModel::texture_step);
        }
        let mut orders = no_orders();
        let drawing = self.draw_frame(owned, new_frame, now);
        if !drawing.update.needs_present() {
            return self.end_step(orders, FrameUpdate::Unchanged, false, now);
        }
        give(&mut orders, Order::Draw);
        match drawing.extract_alpha {
            Some(extract) => give(&mut orders, Order::RefreshAlpha(extract)),
            None => {},
        }
        TurnStep { orders, request: Request::Present }
    }

    /// Takes a turn one step further. A turn begins with [`TurnEvent::Start`]. Its orders are
    /// carried out and what it waits for is found out and handed back, until it is over.
    pub fn advance(&mut self, event: TurnEvent, now: Instant) -> (step: TurnStep)
        requires
            old(self)@.wf(),
            old(self)@.expects(event@),
            crate::spout::receiver::schedulable(now),
        ensures
            final(self).comes_to(step, old(self)@.step(event@, now)),
    {
        match event {
            TurnEvent::Start { requests, choice } => self.start_step(requests, choice, now),
            TurnEvent::Senders(latest) => self.senders_step(latest, now),
            TurnEvent::Description { pending, outcome } => self.poll_step(
                no_orders(),
                PollEvent::Read { pending, outcome },
                now,
            ),
            TurnEvent::Opened { source, opened } => self.opened_step(source, opened, now),
            TurnEvent::AlphaCreated(created) => {
                let mut orders = no_orders();
                self.alpha_finished(created);
                give(&mut orders, Order::ReadAlpha);
                self.frame_step(orders, now)
            },
            TurnEvent::Texture { owned, new_frame } => self.texture_step(owned, new_frame, now),
            TurnEvent::Presented(presented) => self.end_step(
                no_orders(),
                FrameUpdate::Rendered,
                presented,
                now,
            ),
        }
    }
}

/// The event that a request waits for.
pub open spec fn answers(request: RequestModel, event: EventModel) -> bool {
    match request {
        RequestModel::TakeSenders => event is Senders,
        RequestModel::ReadDescription(stage) => event matches EventModel::Description {
            pending,
            ..
        } && pending == stage,
        RequestModel::OpenSource(wanted) => event matches EventModel::Opened { source, .. } && source
            == wanted,
        RequestModel::CreateAlpha => event is AlphaCreated,
        RequestModel::TryTexture => event is Texture,
        RequestModel::Present => event is Presented,
        RequestModel::End(_) => false,
    }
}

/// How far a request is from the end of the turn.
pub open spec fn distance(request: RequestModel) -> nat {
    match request {
        RequestModel::TakeSenders => 6,
        RequestModel::ReadDescription(_) => 5,
        RequestModel::OpenSource(_) => 4,
        RequestModel::CreateAlpha => 3,
        RequestModel::TryTexture => 2,
        RequestModel::Present => 1,
        RequestModel::End(_) => 0,
    }
}

/// How many descriptions a turn may still read before it goes on.
pub open spec fn reads_left(state: crate::session::SessionModel, request: RequestModel) -> int {
    match request {
        RequestModel::ReadDescription(stage) => crate::spout::receiver::remaining_reads(
            state.receiver,
            crate::spout::receiver::PollStep::Read(stage),
        ),
        _ => 0,
    }
}

/// A step that asks for the texture leaves a state that wants a frame.
spec fn asks_for_wanted_frames(step: StepModel, now: Instant) -> bool {
    step.request is TryTexture ==> step.state.frame_wanted(now)
}

/// A turn that goes on to wait leaves no frame behind that could have been drawn.
spec fn leaves_no_wanted_frame(step: StepModel, now: Instant) -> bool {
    step.request matches RequestModel::End(crate::session::EndModel::Wait(_)) ==> !(step.state.shown
        is Some && step.state.visible && step.state.received && step.state.pacer.due(now))
}

proof fn settled_steps(state: crate::session::SessionModel, orders: Seq<OrderModel>, now: Instant)
    ensures
        distance(state.settle_step(orders, now).request) <= 3,
        !(state.settle_step(orders, now).request is Present),
        asks_for_wanted_frames(state.settle_step(orders, now), now),
        leaves_no_wanted_frame(state.settle_step(orders, now), now),
{
    reveal(crate::session::SessionModel::settle_step);
    reveal(crate::session::SessionModel::alpha_step);
    reveal(crate::session::SessionModel::frame_step);
    reveal(crate::session::SessionModel::end_step);
}

proof fn polled_steps(
    state: crate::session::SessionModel,
    orders: Seq<OrderModel>,
    receiver: crate::spout::receiver::ReceiverState,
    step: crate::spout::receiver::PollStep,
    now: Instant,
)
    ensures
        ({
            let next = state.poll_step(orders, receiver, step, now);
            &&& step matches crate::spout::receiver::PollStep::Read(stage) ==> next.request
                == RequestModel::ReadDescription(stage) && next.state.receiver == receiver
            &&& step is Done ==> distance(next.request) <= 4
            &&& !(next.request is Present)
            &&& asks_for_wanted_frames(next, now)
            &&& leaves_no_wanted_frame(next, now)
        }),
{
    reveal(crate::session::SessionModel::poll_step);
    reveal(crate::session::SessionModel::polled_step);
    let polled = crate::session::SessionModel { receiver, ..state };
    if let crate::spout::receiver::PollStep::Done(result) = step {
        let (received, reported) = match result {
            Ok(received) => (received, orders),
            Err(error) => (false, orders.push(OrderModel::PollFailed(error))),
        };
        let listed = if receiver.selected != state.menu_selected {
            reported.push(
                OrderModel::Menu(
                    crate::session::MenuModel { names: state.known, selected: receiver.selected },
                ),
            )
        } else {
            reported
        };
        let followed = crate::session::SessionModel {
            received,
            menu_selected: receiver.selected,
            ..polled
        };
        settled_steps(followed, listed, now);
    }
}

proof fn received_steps(state: crate::session::SessionModel, orders: Seq<OrderModel>, now: Instant)
    ensures
        distance(state.receive_step(orders, now).request) <= 5,
        !(state.receive_step(orders, now).request is Present),
        asks_for_wanted_frames(state.receive_step(orders, now), now),
        leaves_no_wanted_frame(state.receive_step(orders, now), now),
{
    let (receiver, step) = state.receiver.begin(now);
    polled_steps(state, orders, receiver, step, now);
}

/// Every answer brings a turn nearer to its end, so a turn always ends.
pub proof fn every_answer_brings_the_end_nearer(
    state: crate::session::SessionModel,
    request: RequestModel,
    event: EventModel,
    now: Instant,
)
    requires
        answers(request, event),
        state.offers(request),
    ensures
        ({
            let next = state.step(event, now);
            ||| distance(next.request) < distance(request)
            ||| distance(next.request) == distance(request) && 0 <= reads_left(
                next.state,
                next.request,
            ) < reads_left(state, request)
        }),
{
    let none = Seq::<OrderModel>::empty();
    match event {
        EventModel::Start { .. } => {},
        EventModel::Senders(latest) => {
            reveal(crate::session::SessionModel::senders_step);
            let orders = match latest {
                Some(names) => none.push(
                    OrderModel::Menu(
                        crate::session::MenuModel { names, selected: state.receiver.selected },
                    ),
                ),
                None => none,
            };
            received_steps(state.refreshed(latest, now), orders, now);
        },
        EventModel::Description { pending, outcome } => {
            let (receiver, step) = state.receiver.resume(pending, outcome, now);
            crate::spout::order::by_name_is_ordered(state.receiver.discovered);
            polled_steps(state, none, receiver, step, now);
        },
        EventModel::Opened { source, opened } => {
            reveal(crate::session::SessionModel::opened_step);
            let orders = if opened {
                none.push(OrderModel::ClearMask)
            } else {
                none
            };
            settled_steps(state.rebuilt(source, opened, now), orders, now);
        },
        EventModel::AlphaCreated(_) => {
            reveal(crate::session::SessionModel::frame_step);
            reveal(crate::session::SessionModel::end_step);
        },
        EventModel::Texture { .. } => {
            reveal(crate::session::SessionModel::texture_step);
            reveal(crate::session::SessionModel::end_step);
        },
        EventModel::Presented(_) => {
            reveal(crate::session::SessionModel::end_step);
        },
    }
}

/// What every step keeps: the texture is asked for exactly when a frame is wanted, and a frame is
/// only presented that was just drawn.
spec fn draws_before_presenting(step: StepModel, event: EventModel, now: Instant) -> bool {
    &&& asks_for_wanted_frames(step, now)
    &&& !(event is Texture || event is Presented) ==> leaves_no_wanted_frame(step, now)
    &&& step.request is Present ==> event is Texture && step.orders[0] == OrderModel::Draw
}

proof fn steps_draw_before_presenting(
    state: crate::session::SessionModel,
    event: EventModel,
    now: Instant,
)
    ensures
        draws_before_presenting(state.step(event, now), event, now),
{
    let none = Seq::<OrderModel>::empty();
    match event {
        EventModel::Start { requests, choice } => {
            reveal(crate::session::SessionModel::start_step);
            let (after, effects) = state.after_commands(requests, choice, now);
            received_steps(after, none.push(OrderModel::Follow(effects)), now);
        },
        EventModel::Senders(latest) => {
            reveal(crate::session::SessionModel::senders_step);
            let orders = match latest {
                Some(names) => none.push(
                    OrderModel::Menu(
                        crate::session::MenuModel { names, selected: state.receiver.selected },
                    ),
                ),
                None => none,
            };
            received_steps(state.refreshed(latest, now), orders, now);
        },
        EventModel::Description { pending, outcome } => {
            let (receiver, step) = state.receiver.resume(pending, outcome, now);
            polled_steps(state, none, receiver, step, now);
        },
        EventModel::Opened { source, opened } => {
            reveal(crate::session::SessionModel::opened_step);
            let orders = if opened {
                none.push(OrderModel::ClearMask)
            } else {
                none
            };
            settled_steps(state.rebuilt(source, opened, now), orders, now);
        },
        EventModel::AlphaCreated(_) => {
            reveal(crate::session::SessionModel::frame_step);
            reveal(crate::session::SessionModel::end_step);
        },
        EventModel::Texture { .. } => {
            reveal(crate::session::SessionModel::texture_step);
            reveal(crate::session::SessionModel::end_step);
        },
        EventModel::Presented(_) => {
            reveal(crate::session::SessionModel::end_step);
        },
    }
}

/// The texture of a sender is only looked at for a window that is shown, while a sender is
/// connected and a frame is due.
pub proof fn only_shown_windows_are_drawn(
    state: crate::session::SessionModel,
    event: EventModel,
    now: Instant,
)
    requires
        state.step(event, now).request is TryTexture,
    ensures
        state.step(event, now).state.visible,
        state.step(event, now).state.shown is Some,
        state.step(event, now).state.received,
        state.step(event, now).state.pacer.due(now),
{
    steps_draw_before_presenting(state, event, now);
}

/// Only a frame that was just drawn is presented.
pub proof fn only_drawn_frames_are_presented(
    state: crate::session::SessionModel,
    event: EventModel,
    now: Instant,
)
    requires
        state.step(event, now).request is Present,
    ensures
        event is Texture,
        state.step(event, now).orders[0] == OrderModel::Draw,
{
    steps_draw_before_presenting(state, event, now);
}

/// A turn in which no sender is connected ends with a hidden window, and without a frame.
pub proof fn turn_without_a_sender_hides_the_window(
    state: crate::session::SessionModel,
    orders: Seq<OrderModel>,
    result: Result<bool, SpoutError>,
    now: Instant,
)
    requires
        state.wf(),
        state.receiver.current is None,
    ensures
        ({
            let next = state.polled_step(orders, result, now);
            &&& !next.state.visible
            &&& next.request is End || next.request is CreateAlpha
            &&& state.visible ==> next.orders.contains(OrderModel::Visible(false))
        }),
{
    reveal(crate::session::SessionModel::polled_step);
    reveal(crate::session::SessionModel::settle_step);
    reveal(crate::session::SessionModel::alpha_step);
    reveal(crate::session::SessionModel::frame_step);
    reveal(crate::session::SessionModel::end_step);
    let next = state.polled_step(orders, result, now);
    let reported = match result {
        Ok(_) => orders,
        Err(error) => orders.push(OrderModel::PollFailed(error)),
    };
    let listed = if state.receiver.selected != state.menu_selected {
        reported.push(
            OrderModel::Menu(
                crate::session::MenuModel {
                    names: state.known,
                    selected: state.receiver.selected,
                },
            ),
        )
    } else {
        reported
    };
    if state.visible {
        assert(next.orders[listed.len() as int] == OrderModel::Visible(false));
    }
}

/// Whenever the window has settled, the tray menu is told the state that it then has.
pub proof fn tray_shows_the_settled_state(
    state: crate::session::SessionModel,
    orders: Seq<OrderModel>,
    now: Instant,
)
    ensures
        state.settle_step(orders, now).orders.contains(
            OrderModel::Tray(state.settle_step(orders, now).state.tray_state()),
        ),
{
    reveal(crate::session::SessionModel::settle_step);
    reveal(crate::session::SessionModel::alpha_step);
    reveal(crate::session::SessionModel::frame_step);
    reveal(crate::session::SessionModel::end_step);
    let next = state.settle_step(orders, now);
    let shown = if state.source_ready() == state.available {
        orders
    } else {
        orders.push(OrderModel::Visible(state.settled().visible))
    };
    assert(next.orders[shown.len() as int] == OrderModel::Tray(next.state.tray_state()));
}

/// A source that is replaced takes its alpha mask with it.
pub proof fn replaced_source_clears_the_mask(
    state: crate::session::SessionModel,
    source: crate::session::SourceModel,
    now: Instant,
)
    ensures
        state.opened_step(source, true, now).orders[0] == OrderModel::ClearMask,
        !state.opened_step(source, true, now).state.alpha_ready,
        !state.opened_step(source, true, now).state.interaction.dragging,
{
    reveal(crate::session::SessionModel::opened_step);
    reveal(crate::session::SessionModel::settle_step);
    reveal(crate::session::SessionModel::alpha_step);
    reveal(crate::session::SessionModel::frame_step);
    reveal(crate::session::SessionModel::end_step);
}

/// A hotkey or a choice in the tray menu that ends the program ends the turn at once.
pub proof fn quitting_ends_the_turn(
    state: crate::session::SessionModel,
    requests: HotkeyRequests,
    choice: Option<crate::tray::ChoiceModel>,
    now: Instant,
)
    requires
        requests.quit || choice == Some(
            crate::tray::ChoiceModel::Action(crate::tray::TrayAction::Quit),
        ),
    ensures
        state.start_step(requests, choice, now).request == RequestModel::End(
            crate::session::EndModel::Exit,
        ),
{
    reveal(crate::session::SessionModel::start_step);
}

/// A turn does not end before the texture has been looked at, as long as a window is shown, its
/// texture is open, a sender is connected and a frame is due: nothing else is asked of a frame.
pub proof fn turns_do_not_end_while_a_frame_is_wanted(
    state: crate::session::SessionModel,
    event: EventModel,
    now: Instant,
)
    requires
        !(event is Texture),
        !(event is Presented),
        state.step(event, now).request matches RequestModel::End(
            crate::session::EndModel::Wait(_),
        ),
    ensures
        ({
            let after = state.step(event, now).state;
            !(after.shown is Some && after.visible && after.received && after.pacer.due(now))
        }),
{
    steps_draw_before_presenting(state, event, now);
}

/// Whenever a window is shown, its texture is open, a sender is connected and a frame is due, the
/// texture is looked at, whether or not a redraw was asked for and interaction is on.
pub proof fn due_frames_are_looked_at(
    state: crate::session::SessionModel,
    orders: Seq<OrderModel>,
    now: Instant,
)
    requires
        state.shown is Some,
        state.visible,
        state.received,
        state.pacer.due(now),
    ensures
        state.frame_step(orders, now).request is TryTexture,
        state.frame_step(orders, now).state == state,
        state.frame_step(orders, now).orders == orders,
        state.step(EventModel::AlphaCreated(false), now).request is TryTexture,
        state.step(EventModel::AlphaCreated(true), now).request is TryTexture,
{
    reveal(crate::session::SessionModel::frame_step);
}

/// Once the window has settled, a due frame of a connected sender is looked at in that turn: at
/// once, or as soon as the attempt to create the resources behind the alpha mask is over.
pub proof fn settled_windows_are_looked_at(
    state: crate::session::SessionModel,
    orders: Seq<OrderModel>,
    created: bool,
    now: Instant,
)
    requires
        state.settled().shown is Some,
        state.settled().visible,
        state.settled().received,
        state.settled().pacer.due(now),
    ensures
        ({
            let next = state.settle_step(orders, now);
            ||| next.request is TryTexture
            ||| next.request is CreateAlpha && next.state.interaction.enabled
                && !next.state.alpha_ready && next.state.step(
                EventModel::AlphaCreated(created),
                now,
            ).request is TryTexture
        }),
{
    reveal(crate::session::SessionModel::settle_step);
    reveal(crate::session::SessionModel::alpha_step);
    reveal(crate::session::SessionModel::frame_step);
}

/// A new frame of a texture that may be read is drawn and presented in the turn that finds it, and
/// so is a redraw that was asked for; the turn then waits.
pub proof fn new_frames_are_drawn_and_presented(
    state: crate::session::SessionModel,
    new_frame: bool,
    now: Instant,
)
    requires
        new_frame || state.redraw,
    ensures
        ({
            let drawn = state.step(EventModel::Texture { owned: true, new_frame }, now);
            let shown = drawn.state.step(EventModel::Presented(true), now);
            let lost = drawn.state.step(EventModel::Presented(false), now);
            &&& drawn.orders[0] == OrderModel::Draw
            &&& drawn.request is Present
            &&& !drawn.state.redraw
            &&& shown.request matches RequestModel::End(crate::session::EndModel::Wait(_))
            &&& shown.state.pacer.last_presented_at == now
            &&& !shown.state.pacer.force_next
            &&& lost.request == RequestModel::End(crate::session::EndModel::Exit)
        }),
{
    reveal(crate::session::SessionModel::texture_step);
    reveal(crate::session::SessionModel::end_step);
}

/// Without leave to read the texture, or without a reason to draw, nothing is drawn, and the turn
/// waits with nothing changed.
pub proof fn other_frames_are_left_alone(
    state: crate::session::SessionModel,
    owned: bool,
    new_frame: bool,
    now: Instant,
)
    requires
        !owned || !(new_frame || state.redraw),
    ensures
        ({
            let next = state.step(EventModel::Texture { owned, new_frame }, now);
            &&& next.orders.len() == 0
            &&& next.state == state
            &&& next.request matches RequestModel::End(crate::session::EndModel::Wait(_))
        }),
{
    reveal(crate::session::SessionModel::texture_step);
    reveal(crate::session::SessionModel::end_step);
}

/// With a drawn frame the alpha mask is looked at while interaction is on and nothing is dragged,
/// and a fresh one is asked for when a refresh is due.
pub proof fn drawn_frames_refresh_the_mask(
    state: crate::session::SessionModel,
    new_frame: bool,
    now: Instant,
)
    requires
        new_frame || state.redraw,
    ensures
        ({
            let orders = state.step(EventModel::Texture { owned: true, new_frame }, now).orders;
            &&& state.interaction.enabled && !state.interaction.dragging ==> orders == seq![
                OrderModel::Draw,
                OrderModel::RefreshAlpha(
                    now.nanos >= state.interaction.next_alpha_update.nanos,
                ),
            ]
            &&& !state.interaction.enabled || state.interaction.dragging ==> orders == seq![
                OrderModel::Draw,
            ]
        }),
{
    reveal(crate::session::SessionModel::texture_step);
    let orders = state.step(EventModel::Texture { owned: true, new_frame }, now).orders;
    if state.interaction.enabled && !state.interaction.dragging {
        assert(orders =~= seq![
            OrderModel::Draw,
            OrderModel::RefreshAlpha(now.nanos >= state.interaction.next_alpha_update.nanos),
        ]);
    } else {
        assert(orders =~= seq![OrderModel::Draw]);
    }
}

/// The orders of a step begin with those that were given before it.
spec fn goes_on_from(later: Seq<OrderModel>, earlier: Seq<OrderModel>) -> bool {
    &&& earlier.len() <= later.len()
    &&& forall|i: int| 0 <= i < earlier.len() ==> later[i] == #[trigger] earlier[i]
}

proof fn settled_orders(state: crate::session::SessionModel, orders: Seq<OrderModel>, now: Instant)
    ensures
        goes_on_from(state.settle_step(orders, now).orders, orders),
        state.settle_step(orders, now).state.receiver == state.receiver,
        state.settle_step(orders, now).state.received == state.received,
        state.settle_step(orders, now).state.shown == state.shown,
        state.settle_step(orders, now).state.menu_selected == state.menu_selected,
        state.settle_step(orders, now).state.known == state.known,
        state.settle_step(orders, now).state.next_refresh == state.next_refresh,
        state.settle_step(orders, now).state.last_failure == state.last_failure,
{
    reveal(crate::session::SessionModel::settle_step);
    reveal(crate::session::SessionModel::alpha_step);
    reveal(crate::session::SessionModel::frame_step);
    reveal(crate::session::SessionModel::end_step);
}

/// While a texture is open, the window follows its scale, and the alpha mask exists exactly while
/// interaction is on: it is given back, created or handed on.
pub proof fn mask_exists_while_interaction_is_on(
    state: crate::session::SessionModel,
    orders: Seq<OrderModel>,
    now: Instant,
)
    requires
        state.shown is Some,
    ensures
        ({
            let next = state.settle_step(orders, now);
            &&& next.orders.contains(OrderModel::FitWindow)
            &&& !state.interaction.enabled ==> next.orders.last() == OrderModel::ReleaseAlpha
                && !next.state.alpha_ready
            &&& state.interaction.enabled && !state.alpha_ready ==> next.request is CreateAlpha
            &&& state.interaction.enabled && state.alpha_ready ==> next.orders.last()
                == OrderModel::ReadAlpha && next.state.alpha_ready
        }),
{
    reveal(crate::session::SessionModel::settle_step);
    reveal(crate::session::SessionModel::alpha_step);
    reveal(crate::session::SessionModel::frame_step);
    reveal(crate::session::SessionModel::end_step);
    let next = state.settle_step(orders, now);
    let told = if state.source_ready() == state.available {
        orders.len() + 1
    } else {
        orders.len() + 2
    };
    assert(next.orders[told as int] == OrderModel::FitWindow);
}

/// A window that is shown or hidden by what there is to show is told so.
pub proof fn window_is_told_to_come_and_go(
    state: crate::session::SessionModel,
    orders: Seq<OrderModel>,
    now: Instant,
)
    ensures
        ({
            let next = state.settle_step(orders, now);
            state.visible != next.state.visible ==> next.orders.contains(
                OrderModel::Visible(next.state.visible),
            )
        }),
{
    reveal(crate::session::SessionModel::settle_step);
    reveal(crate::session::SessionModel::alpha_step);
    reveal(crate::session::SessionModel::frame_step);
    reveal(crate::session::SessionModel::end_step);
    let next = state.settle_step(orders, now);
    if state.visible != next.state.visible {
        assert(next.orders[orders.len() as int] == OrderModel::Visible(next.state.visible));
    }
}

/// A poll that failed is reported and counts as one without a sender; any other says whether a
/// sender is connected. When another sender is followed than the menu shows, the menu is told so.
pub proof fn polls_are_reported(
    state: crate::session::SessionModel,
    orders: Seq<OrderModel>,
    result: Result<bool, SpoutError>,
    now: Instant,
)
    ensures
        ({
            let next = state.polled_step(orders, result, now);
            &&& next.state.received == (result == Ok::<bool, SpoutError>(true))
            &&& next.state.receiver == state.receiver
            &&& next.state.menu_selected == state.receiver.selected
            &&& result matches Err(error) ==> next.orders.contains(OrderModel::PollFailed(error))
            &&& state.receiver.selected != state.menu_selected ==> next.orders.contains(
                OrderModel::Menu(
                    crate::session::MenuModel {
                        names: state.known,
                        selected: state.receiver.selected,
                    },
                ),
            )
        }),
{
    reveal(crate::session::SessionModel::polled_step);
    let next = state.polled_step(orders, result, now);
    let (received, reported) = match result {
        Ok(received) => (received, orders),
        Err(error) => (false, orders.push(OrderModel::PollFailed(error))),
    };
    let menu = OrderModel::Menu(
        crate::session::MenuModel { names: state.known, selected: state.receiver.selected },
    );
    let listed = if state.receiver.selected != state.menu_selected {
        reported.push(menu)
    } else {
        reported
    };
    let followed = crate::session::SessionModel {
        received,
        menu_selected: state.receiver.selected,
        ..state
    };
    settled_orders(followed, listed, now);
    assert(goes_on_from(next.orders, listed));
    if let Err(error) = result {
        assert(listed[orders.len() as int] == OrderModel::PollFailed(error));
        assert(next.orders[orders.len() as int] == OrderModel::PollFailed(error));
    }
    if state.receiver.selected != state.menu_selected {
        assert(listed[reported.len() as int] == menu);
        assert(next.orders[reported.len() as int] == menu);
    }
}

/// Once the receiver has been polled, the texture of a connected sender is opened unless it is
/// open already: unless the open one has its handle, its name and its generation.
pub proof fn connected_textures_are_opened(
    state: crate::session::SessionModel,
    orders: Seq<OrderModel>,
    result: Result<bool, SpoutError>,
    info: SenderInfo,
    name: Seq<u8>,
    now: Instant,
)
    requires
        state.receiver.wf(),
        state.receiver.current == Some(info),
        state.receiver.selected == Some(name),
        state.last_failure is None,
    ensures
        ({
            let wanted = crate::session::SourceModel {
                handle: info.signed_handle(),
                name,
                generation: state.receiver.generation,
            };
            let next = state.polled_step(orders, result, now);
            &&& state.shown != Some(wanted) ==> next.request == RequestModel::OpenSource(wanted)
            &&& state.shown == Some(wanted) ==> !(next.request is OpenSource)
        }),
{
    reveal(crate::session::SessionModel::polled_step);
    reveal(crate::session::SessionModel::settle_step);
    reveal(crate::session::SessionModel::alpha_step);
    reveal(crate::session::SessionModel::frame_step);
    reveal(crate::session::SessionModel::end_step);
}

/// A texture that was opened is the open one, and one that could not be opened leaves the open one
/// and is remembered.
pub proof fn opened_textures_are_shown(
    state: crate::session::SessionModel,
    source: crate::session::SourceModel,
    now: Instant,
)
    ensures
        state.opened_step(source, true, now).state.shown == Some(source),
        state.opened_step(source, true, now).state.receiver == state.receiver,
        state.opened_step(source, false, now).state.shown == state.shown,
        state.opened_step(source, false, now).state.last_failure == Some(now),
        !(state.opened_step(source, false, now).orders[0] is ClearMask),
{
    reveal(crate::session::SessionModel::opened_step);
    let none = Seq::<OrderModel>::empty();
    settled_orders(state.rebuilt(source, true, now), none.push(OrderModel::ClearMask), now);
    settled_orders(state.rebuilt(source, false, now), none, now);
    reveal(crate::session::SessionModel::settle_step);
    reveal(crate::session::SessionModel::alpha_step);
    reveal(crate::session::SessionModel::frame_step);
    reveal(crate::session::SessionModel::end_step);
}

proof fn received_orders(state: crate::session::SessionModel, orders: Seq<OrderModel>, now: Instant)
    ensures
        goes_on_from(state.receive_step(orders, now).orders, orders),
        state.receive_step(orders, now).state.receiver == state.receiver.begin(now).0,
        state.receive_step(orders, now).state.known == state.known,
        state.receive_step(orders, now).state.next_refresh == state.next_refresh,
        state.receiver.begin(now).1 matches crate::spout::receiver::PollStep::Read(stage)
            ==> state.receive_step(orders, now).request == RequestModel::ReadDescription(stage),
{
    reveal(crate::session::SessionModel::poll_step);
    reveal(crate::session::SessionModel::polled_step);
    let (receiver, step) = state.receiver.begin(now);
    if let crate::spout::receiver::PollStep::Done(result) = step {
        let (received, reported) = match result {
            Ok(received) => (received, orders),
            Err(error) => (false, orders.push(OrderModel::PollFailed(error))),
        };
        let listed = if receiver.selected != state.menu_selected {
            reported.push(
                OrderModel::Menu(
                    crate::session::MenuModel { names: state.known, selected: receiver.selected },
                ),
            )
        } else {
            reported
        };
        let followed = crate::session::SessionModel {
            receiver,
            received,
            menu_selected: receiver.selected,
            ..state
        };
        settled_orders(followed, listed, now);
        assert(goes_on_from(listed, orders));
    }
}

/// A turn first lets the window follow what the commands changed. Unless they end the program, the
/// list of senders is looked at when its half second has passed, and otherwise the receiver is
/// polled: the description of the followed sender is read when its time has come.
pub proof fn turns_start_with_the_commands(
    state: crate::session::SessionModel,
    requests: HotkeyRequests,
    choice: Option<crate::tray::ChoiceModel>,
    now: Instant,
)
    ensures
        ({
            let next = state.start_step(requests, choice, now);
            let (after, effects) = state.after_commands(requests, choice, now);
            let over = requests.quit || choice == Some(
                crate::tray::ChoiceModel::Action(crate::tray::TrayAction::Quit),
            );
            &&& next.orders.len() > 0 && next.orders[0] == OrderModel::Follow(effects)
            &&& over ==> next.request == RequestModel::End(crate::session::EndModel::Exit)
            &&& !over && now.nanos >= after.next_refresh.nanos ==> next.request is TakeSenders
            &&& now.nanos < after.next_refresh.nanos ==> !(next.request is TakeSenders)
            &&& !over && now.nanos < after.next_refresh.nanos && now.nanos
                >= after.receiver.next_metadata_poll.nanos && after.receiver.selected is Some ==> {
                &&& next.request matches RequestModel::ReadDescription(stage)
                &&& stage is Selected
                &&& stage.target() == after.receiver.selected->0
            }
        }),
{
    reveal(crate::session::SessionModel::start_step);
    let (after, effects) = state.after_commands(requests, choice, now);
    let orders = Seq::<OrderModel>::empty().push(OrderModel::Follow(effects));
    received_orders(after, orders, now);
    received_steps(after, orders, now);
    assert(orders[0] == OrderModel::Follow(effects));
}

/// A new list of senders goes to the menu, with the followed sender checked, and to the receiver;
/// the next look is half a second away.
pub proof fn lists_reach_the_menu(
    state: crate::session::SessionModel,
    names: Seq<Seq<u8>>,
    now: Instant,
)
    requires
        crate::spout::receiver::schedulable(now),
    ensures
        ({
            let next = state.senders_step(Some(names), now);
            &&& next.orders.len() > 0
            &&& next.orders[0] == OrderModel::Menu(
                crate::session::MenuModel { names, selected: state.receiver.selected },
            )
            &&& next.state.known == names
            &&& next.state.receiver.discovered == names
            &&& next.state.next_refresh.nanos == now.nanos + 500_000_000
        }),
        state.senders_step(None, now).state.known == state.known,
        state.senders_step(None, now).state.receiver.discovered == state.receiver.discovered,
        state.senders_step(None, now).state.next_refresh.nanos == now.nanos + 500_000_000,
{
    reveal(crate::session::SessionModel::senders_step);
    let none = Seq::<OrderModel>::empty();
    let menu = OrderModel::Menu(
        crate::session::MenuModel { names, selected: state.receiver.selected },
    );
    received_orders(state.refreshed(Some(names), now), none.push(menu), now);
    received_orders(state.refreshed(None, now), none, now);
    assert(none.push(menu)[0] == menu);
}

/// What the description of the followed sender shows reaches the session in the same step: a
/// texture that can be opened is the connected one, and a sender counts as connected.
pub proof fn descriptions_reach_the_session(
    state: crate::session::SessionModel,
    name: Seq<u8>,
    started: Instant,
    info: SenderInfo,
    now: Instant,
)
    ensures
        ({
            let next = state.step(
                EventModel::Description {
                    pending: crate::spout::receiver::ReadStage::Selected { name, started },
                    outcome: Ok(info),
                },
                now,
            );
            &&& info.usable() ==> next.state.receiver.current == Some(info) && next.state.received
            &&& !info.usable() ==> next.state.receiver.current is None && !next.state.received
            &&& next.state.receiver.selected == state.receiver.selected
        }),
{
    reveal(crate::session::SessionModel::poll_step);
    let stage = crate::spout::receiver::ReadStage::Selected { name, started };
    let (receiver, step) = state.receiver.resume(stage, Ok(info), now);
    let polled = crate::session::SessionModel { receiver, ..state };
    if let crate::spout::receiver::PollStep::Done(result) = step {
        polls_are_reported(polled, Seq::<OrderModel>::empty(), result, now);
    }
}

} // verus!
