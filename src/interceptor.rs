//! The state owned by the hidden window's message thread, and the
//! transitions that messages cause in it.
use vstd::prelude::*;
use crate::message::ClickType;
use crate::notify::NotifyData;

verus! {

/// Caller-chosen identifier of a tray icon, carried into its events.
#[derive(Debug)]
pub struct TrayIconId(pub String);

impl View for TrayIconId {
    type V = Seq<char>;

    open spec fn view(&self) -> Seq<char> {
        self.0@
    }
}

impl TrayIconId {
    pub fn new(id: &str) -> (r: Self)
        ensures
            r@ == id@,
    {
        TrayIconId(id.to_owned())
    }

    /// A copy with the same text.
    pub fn duplicate(&self) -> (r: Self)
        ensures
            r@ == self@,
    {
        TrayIconId(self.0.clone())
    }
}

/// Tray state: written only by the hidden window's message thread.
#[derive(Debug)]
pub struct TrayState {
    pub internal_id: u32,
    pub id: TrayIconId,
    pub window: isize,
    pub popup_menu: Option<isize>,
    pub icon: Option<isize>,
    pub tooltip: Option<String>,
    /// Whether the slot is meant to be shown: true from creation, false
    /// after a hide until the next show.
    pub visible: bool,
}

pub ghost struct TrayStateModel {
    pub internal_id: u32,
    pub id: Seq<char>,
    pub window: isize,
    pub popup_menu: Option<isize>,
    pub icon: Option<isize>,
    pub tooltip: Option<Seq<char>>,
    pub visible: bool,
}

pub open spec fn opt_string(s: Option<String>) -> Option<Seq<char>> {
    match s {
        Some(t) => Some(t@),
        None => None,
    }
}

impl View for TrayState {
    type V = TrayStateModel;

    open spec fn view(&self) -> TrayStateModel {
        TrayStateModel {
            internal_id: self.internal_id,
            id: self.id@,
            window: self.window,
            popup_menu: self.popup_menu,
            icon: self.icon,
            tooltip: opt_string(self.tooltip),
            visible: self.visible,
        }
    }
}

/// A message to the hidden window, with its payload taken out.
#[derive(Debug)]
pub enum Message {
    Destroy,
    UpdateMenu(Option<isize>),
    UpdateIcon(Option<isize>),
    UpdateTooltip(Option<String>),
    Show,
    Hide,
    TaskbarCreated,
    Click(ClickType),
    Other,
}

pub ghost enum MessageModel {
    Destroy,
    UpdateMenu(Option<isize>),
    UpdateIcon(Option<isize>),
    UpdateTooltip(Option<Seq<char>>),
    Show,
    Hide,
    TaskbarCreated,
    Click(ClickType),
    Other,
}

impl View for Message {
    type V = MessageModel;

    open spec fn view(&self) -> MessageModel {
        match self {
            Message::Destroy => MessageModel::Destroy,
            Message::UpdateMenu(p) => MessageModel::UpdateMenu(*p),
            Message::UpdateIcon(i) => MessageModel::UpdateIcon(*i),
            Message::UpdateTooltip(t) => MessageModel::UpdateTooltip(opt_string(*t)),
            Message::Show => MessageModel::Show,
            Message::Hide => MessageModel::Hide,
            Message::TaskbarCreated => MessageModel::TaskbarCreated,
            Message::Click(c) => MessageModel::Click(*c),
            Message::Other => MessageModel::Other,
        }
    }
}

/// What a click notification hands on: the event's origin, and the popup
/// menu to display, which is there only for a right click with a menu set.
#[derive(Debug)]
pub struct ClickReport {
    pub id: TrayIconId,
    pub internal_id: u32,
    pub window: isize,
    pub click_type: ClickType,
    pub popup_menu: Option<isize>,
}

/// What the window thread does after a message. All but `Reclaimed` go on
/// to the default window procedure.
#[derive(Debug)]
pub enum Reaction {
    /// The state was dropped; the message is answered here.
    Reclaimed,
    Forward,
    Register(NotifyData),
    Remove(NotifyData),
    Click(ClickReport),
}

/// The state after message `m`.
pub open spec fn step(s: Option<TrayStateModel>, m: MessageModel) -> Option<TrayStateModel> {
    match s {
        None => None,
        Some(st) => match m {
            MessageModel::Destroy => None,
            MessageModel::UpdateMenu(p) => Some(TrayStateModel { popup_menu: p, ..st }),
            MessageModel::UpdateIcon(i) => Some(TrayStateModel { icon: i, ..st }),
            MessageModel::UpdateTooltip(t) => Some(TrayStateModel { tooltip: t, ..st }),
            MessageModel::Show => Some(TrayStateModel { visible: true, ..st }),
            MessageModel::Hide => Some(TrayStateModel { visible: false, ..st }),
            _ => Some(st),
        },
    }
}

/// Whether message `m` drops the state.
pub open spec fn reclaims(s: Option<TrayStateModel>, m: MessageModel) -> bool {
    s is Some && m is Destroy
}

/// What is done about a message, over models.
pub ghost enum ReactionModel {
    Reclaimed,
    Forward,
    /// Register the slot of `window` and `id` with an icon and a tooltip.
    Register(isize, u32, Option<isize>, Option<Seq<char>>),
    /// Remove the slot of `window` and `id`.
    Remove(isize, u32),
    /// Report a click: icon id, internal id, window, click, popup menu.
    Click(Seq<char>, u32, isize, ClickType, Option<isize>),
}

/// The reaction to message `m` in state `s`. The slot is registered by a
/// show of a hidden icon and, after a taskbar restart, only while the icon
/// is visible; it is removed by a hide of a visible icon. Showing a shown
/// icon or hiding a hidden one does nothing.
pub open spec fn reaction_of(s: Option<TrayStateModel>, m: MessageModel) -> ReactionModel {
    match s {
        None => ReactionModel::Forward,
        Some(st) => {
            let register = ReactionModel::Register(st.window, st.internal_id, st.icon, st.tooltip);
            match m {
                MessageModel::Destroy => ReactionModel::Reclaimed,
                MessageModel::Show => if st.visible {
                    ReactionModel::Forward
                } else {
                    register
                },
                MessageModel::Hide => if st.visible {
                    ReactionModel::Remove(st.window, st.internal_id)
                } else {
                    ReactionModel::Forward
                },
                MessageModel::TaskbarCreated => if st.visible {
                    register
                } else {
                    ReactionModel::Forward
                },
                MessageModel::Click(c) => ReactionModel::Click(
                    st.id,
                    st.internal_id,
                    st.window,
                    c,
                    if c == ClickType::Right {
                        st.popup_menu
                    } else {
                        None
                    },
                ),
                _ => ReactionModel::Forward,
            }
        },
    }
}

impl Reaction {
    /// Whether this reaction is the one the model describes.
    pub open spec fn realizes(&self, rm: ReactionModel) -> bool {
        match rm {
            ReactionModel::Reclaimed => self is Reclaimed,
            ReactionModel::Forward => self is Forward,
            ReactionModel::Register(w, id, icon, tooltip) => self is Register
                && self->Register_0.is_registration(w, id, icon, tooltip),
            ReactionModel::Remove(w, id) => self is Remove && self->Remove_0.is_removal(w, id),
            ReactionModel::Click(tray, id, w, c, popup) => {
                &&& self is Click
                &&& self->Click_0.id@ == tray
                &&& self->Click_0.internal_id == id
                &&& self->Click_0.window == w
                &&& self->Click_0.click_type == c
                &&& self->Click_0.popup_menu == popup
            },
        }
    }
}

/// The messages of `ms` applied one after another, first to last.
pub open spec fn run(s: Option<TrayStateModel>, ms: Seq<MessageModel>) -> Option<TrayStateModel>
    decreases ms.len(),
{
    if ms.len() == 0 {
        s
    } else {
        run(step(s, ms[0]), ms.drop_first())
    }
}

/// How many messages of `ms` drop the state.
pub open spec fn reclaim_count(s: Option<TrayStateModel>, ms: Seq<MessageModel>) -> nat
    decreases ms.len(),
{
    if ms.len() == 0 {
        0
    } else {
        (if reclaims(s, ms[0]) {
            1nat
        } else {
            0nat
        }) + reclaim_count(step(s, ms[0]), ms.drop_first())
    }
}

pub open spec fn reclaimed_in(rs: Seq<Reaction>) -> nat
    decreases rs.len(),
{
    if rs.len() == 0 {
        0
    } else {
        reclaimed_in(rs.drop_last()) + (if rs.last() is Reclaimed {
            1nat
        } else {
            0nat
        })
    }
}

pub open spec fn models(q: Seq<Message>) -> Seq<MessageModel> {
    q.map_values(|m: Message| m@)
}

/// The icon after `ms`: that of the last icon update in it, else `d`.
pub open spec fn last_icon(ms: Seq<MessageModel>, d: Option<isize>) -> Option<isize>
    decreases ms.len(),
{
    if ms.len() == 0 {
        d
    } else {
        last_icon(
            ms.drop_first(),
            match ms[0] {
                MessageModel::UpdateIcon(i) => i,
                _ => d,
            },
        )
    }
}

/// The tooltip after `ms`: that of the last tooltip update in it, else `d`.
pub open spec fn last_tooltip(ms: Seq<MessageModel>, d: Option<Seq<char>>) -> Option<Seq<char>>
    decreases ms.len(),
{
    if ms.len() == 0 {
        d
    } else {
        last_tooltip(
            ms.drop_first(),
            match ms[0] {
                MessageModel::UpdateTooltip(t) => t,
                _ => d,
            },
        )
    }
}

/// The popup menu after `ms`: that of the last menu update in it, else `d`.
pub open spec fn last_menu(ms: Seq<MessageModel>, d: Option<isize>) -> Option<isize>
    decreases ms.len(),
{
    if ms.len() == 0 {
        d
    } else {
        last_menu(
            ms.drop_first(),
            match ms[0] {
                MessageModel::UpdateMenu(p) => p,
                _ => d,
            },
        )
    }
}

/// Visibility after `ms`: that asked by the last show or hide in it, else `d`.
pub open spec fn last_visible(ms: Seq<MessageModel>, d: bool) -> bool
    decreases ms.len(),
{
    if ms.len() == 0 {
        d
    } else {
        last_visible(
            ms.drop_first(),
            match ms[0] {
                MessageModel::Show => true,
                MessageModel::Hide => false,
                _ => d,
            },
        )
    }
}

pub open spec fn has_destroy(ms: Seq<MessageModel>) -> bool {
    exists|i: int| 0 <= i < ms.len() && #[trigger] ms[i] is Destroy
}

fn registration_of_state(st: &TrayState) -> (r: NotifyData)
    ensures
        r.is_registration(st.window, st.internal_id, st.icon, opt_string(st.tooltip)),
{
    let tip: Option<&str> = match &st.tooltip {
        Some(t) => Some(t.as_str()),
        None => None,
    };
    NotifyData::registration(st.window, st.internal_id, st.icon, tip)
}

/// The hidden window's message interceptor. It holds the tray state from
/// the hand-over until the window is destroyed.
pub struct Interceptor {
    pub state: Option<TrayState>,
}

impl View for Interceptor {
    type V = Option<TrayStateModel>;

    open spec fn view(&self) -> Option<TrayStateModel> {
        match self.state {
            Some(st) => Some(st@),
            None => None,
        }
    }
}

impl Interceptor {
    /// Takes ownership of the state handed over at creation.
    pub fn new(state: TrayState) -> (r: Self)
        ensures
            r@ == Some(state@),
    {
        Interceptor { state: Some(state) }
    }

    /// Applies one message and says what is to be done about it.
    pub fn handle(&mut self, m: Message) -> (r: Reaction)
        ensures
            final(self)@ == step(old(self)@, m@),
            (r is Reclaimed) == reclaims(old(self)@, m@),
            r.realizes(reaction_of(old(self)@, m@)),
    {
        match self.state.take() {
            None => Reaction::Forward,
            Some(mut st) => {
                let r = match m {
                    Message::Destroy => {
                        return Reaction::Reclaimed;
                    },
                    Message::UpdateMenu(p) => {
                        st.popup_menu = p;
                        Reaction::Forward
                    },
                    Message::UpdateIcon(i) => {
                        st.icon = i;
                        Reaction::Forward
                    },
                    Message::UpdateTooltip(t) => {
                        st.tooltip = t;
                        Reaction::Forward
                    },
                    Message::Show => {
                        if st.visible {
                            Reaction::Forward
                        } else {
                            st.visible = true;
                            Reaction::Register(registration_of_state(&st))
                        }
                    },
                    Message::TaskbarCreated => {
                        if st.visible {
                            Reaction::Register(registration_of_state(&st))
                        } else {
                            Reaction::Forward
                        }
                    },
                    Message::Hide => {
                        if st.visible {
                            st.visible = false;
                            Reaction::Remove(NotifyData::removal(st.window, st.internal_id))
                        } else {
                            Reaction::Forward
                        }
                    },
                    Message::Click(c) => {
                        let popup_menu = match c {
                            ClickType::Right => st.popup_menu,
                            _ => None,
                        };
                        Reaction::Click(
                            ClickReport {
                                id: st.id.duplicate(),
                                internal_id: st.internal_id,
                                window: st.window,
                                click_type: c,
                                popup_menu,
                            },
                        )
                    },
                    Message::Other => Reaction::Forward,
                };
                self.state = Some(st);
                r
            },
        }
    }
}

/// Running one more message after `ms` is one more step.
pub proof fn lemma_run_push(s: Option<TrayStateModel>, ms: Seq<MessageModel>, m: MessageModel)
    ensures
        run(s, ms.push(m)) == step(run(s, ms), m),
    decreases ms.len(),
{
    if ms.len() == 0 {
        assert(ms.push(m).drop_first() =~= Seq::<MessageModel>::empty());
        assert(ms.push(m)[0] == m);
        assert(run(step(s, m), Seq::<MessageModel>::empty()) == step(s, m));
    } else {
        assert(ms.push(m).drop_first() =~= ms.drop_first().push(m));
        assert(ms.push(m)[0] == ms[0]);
        lemma_run_push(step(s, ms[0]), ms.drop_first(), m);
    }
}

impl Interceptor {
    /// Handles the queued messages strictly in the order they were sent;
    /// each gets the reaction due in the state the messages before it left.
    pub fn process(&mut self, queue: Vec<Message>) -> (rs: Vec<Reaction>)
        ensures
            final(self)@ == run(old(self)@, models(queue@)),
            rs@.len() == queue@.len(),
            forall|i: int|
                0 <= i < rs@.len() ==> #[trigger] rs@[i].realizes(
                    reaction_of(run(old(self)@, models(queue@).take(i)), models(queue@)[i]),
                ),
            reclaimed_in(rs@) == reclaim_count(old(self)@, models(queue@)),
    {
        let mut queue = queue;
        let ghost all = models(queue@);
        let mut rs: Vec<Reaction> = Vec::new();
        proof {
            assert(all.take(0) =~= Seq::<MessageModel>::empty());
            assert(models(queue@) =~= all.subrange(0, all.len() as int));
        }
        while queue.len() > 0
            invariant
                rs@.len() + queue@.len() == all.len(),
                models(queue@) =~= all.subrange(rs@.len() as int, all.len() as int),
                self@ == run(old(self)@, all.take(rs@.len() as int)),
                forall|i: int|
                    0 <= i < rs@.len() ==> #[trigger] rs@[i].realizes(
                        reaction_of(run(old(self)@, all.take(i)), all[i]),
                    ),
                reclaim_count(old(self)@, all) == reclaimed_in(rs@) + reclaim_count(
                    self@,
                    models(queue@),
                ),
            decreases queue@.len(),
        {
            let ghost before = queue@;
            let ghost k = rs@.len() as int;
            let m = queue.remove(0);
            proof {
                assert(models(before)[0] == m@);
                assert(all[k] == m@);
                assert(models(before).drop_first() =~= models(queue@));
                assert(all.take(k + 1) =~= all.take(k).push(m@));
                lemma_run_push(old(self)@, all.take(k), m@);
            }
            let ghost rs_before = rs@;
            let r = self.handle(m);
            rs.push(r);
            proof {
                assert(rs@.drop_last() =~= rs_before);
                assert(models(queue@) =~= all.subrange(k + 1, all.len() as int));
            }
        }
        proof {
            assert(all.take(all.len() as int) =~= all);
        }
        rs
    }
}

/// Messages are applied in the order they were sent: while the window
/// lives, the icon, tooltip and popup menu are those of the last update of
/// each, and visibility that of the last show or hide, or the earlier ones
/// where none came.
pub proof fn lemma_updates_in_send_order(st: TrayStateModel, ms: Seq<MessageModel>)
    requires
        !has_destroy(ms),
    ensures
        run(Some(st), ms) == Some(
            TrayStateModel {
                icon: last_icon(ms, st.icon),
                tooltip: last_tooltip(ms, st.tooltip),
                popup_menu: last_menu(ms, st.popup_menu),
                visible: last_visible(ms, st.visible),
                ..st
            },
        ),
    decreases ms.len(),
{
    if ms.len() > 0 {
        let rest = ms.drop_first();
        assert(!has_destroy(rest)) by {
            if has_destroy(rest) {
                let i = choose|i: int| 0 <= i < rest.len() && #[trigger] rest[i] is Destroy;
                assert(ms[i + 1] is Destroy);
            }
        }
        assert(!(ms[0] is Destroy));
        let next = step(Some(st), ms[0])->0;
        lemma_updates_in_send_order(next, rest);
    }
}

/// Once dropped, the state stays dropped and nothing more is reclaimed.
pub proof fn lemma_nothing_after_destroy(ms: Seq<MessageModel>)
    ensures
        run(None, ms) == None::<TrayStateModel>,
        reclaim_count(None, ms) == 0,
    decreases ms.len(),
{
    if ms.len() > 0 {
        lemma_nothing_after_destroy(ms.drop_first());
    }
}

/// The state is reclaimed exactly once if the messages hold a destroy
/// notification, and never otherwise.
pub proof fn lemma_reclaimed_exactly_once(st: TrayStateModel, ms: Seq<MessageModel>)
    ensures
        reclaim_count(Some(st), ms) == if has_destroy(ms) {
            1nat
        } else {
            0nat
        },
    decreases ms.len(),
{
    if ms.len() > 0 {
        let rest = ms.drop_first();
        if ms[0] is Destroy {
            lemma_nothing_after_destroy(rest);
            assert(has_destroy(ms));
        } else {
            let next = step(Some(st), ms[0])->0;
            lemma_reclaimed_exactly_once(next, rest);
            if has_destroy(rest) {
                let i = choose|i: int| 0 <= i < rest.len() && #[trigger] rest[i] is Destroy;
                assert(ms[i + 1] is Destroy);
            }
            if has_destroy(ms) {
                let i = choose|i: int| 0 <= i < ms.len() && #[trigger] ms[i] is Destroy;
                assert(rest[i - 1] is Destroy);
            }
        }
    }
}

/// Hiding a visible icon removes its slot; showing it again keeps the state
/// and registers the slot with the icon and tooltip held before the hide.
pub proof fn lemma_hide_then_show(st: TrayStateModel)
    requires
        st.visible,
    ensures
        reaction_of(Some(st), MessageModel::Hide) == ReactionModel::Remove(
            st.window,
            st.internal_id,
        ),
        reaction_of(step(Some(st), MessageModel::Hide), MessageModel::Show)
            == ReactionModel::Register(st.window, st.internal_id, st.icon, st.tooltip),
        run(Some(st), seq![MessageModel::Hide, MessageModel::Show]) == Some(st),
{
    let ms = seq![MessageModel::Hide, MessageModel::Show];
    let hidden = step(Some(st), MessageModel::Hide);
    assert(ms.drop_first() =~= seq![MessageModel::Show]);
    assert(ms.drop_first().drop_first() =~= Seq::<MessageModel>::empty());
    assert(run(hidden, seq![MessageModel::Show]) == run(
        step(hidden, MessageModel::Show),
        seq![MessageModel::Show].drop_first(),
    ));
    assert(step(hidden, MessageModel::Show) == Some(st));
    assert(run(Some(st), Seq::<MessageModel>::empty()) == Some(st));
}

/// After any messages short of a destroy, a taskbar restart registers the
/// slot again with the last icon and tooltip, with no call from the owner,
/// if and only if the last show or hide left the icon visible.
pub proof fn lemma_taskbar_restart_registers_last_known(st: TrayStateModel, ms: Seq<MessageModel>)
    requires
        !has_destroy(ms),
    ensures
        reaction_of(run(Some(st), ms), MessageModel::TaskbarCreated) == if last_visible(
            ms,
            st.visible,
        ) {
            ReactionModel::Register(
                st.window,
                st.internal_id,
                last_icon(ms, st.icon),
                last_tooltip(ms, st.tooltip),
            )
        } else {
            ReactionModel::Forward
        },
{
    lemma_updates_in_send_order(st, ms);
}

} // verus!
