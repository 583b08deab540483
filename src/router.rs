use vstd::prelude::*;
use crate::models::{NaviType, Update, UpdateType};

verus! {

/// Seconds that one long-poll request may wait for updates.
pub const LONG_POLL_TIMEOUT_SECS: u64 = 5;

/// Seconds the poller pauses after each poll cycle, whatever its outcome.
pub const POLL_PAUSE_SECS: u64 = 2;

/// Seconds the navigator pauses after each event it handled.
pub const NAVI_PAUSE_SECS: u64 = 2;

/// How many updates each consumer channel holds before a send waits.
pub const CHANNEL_CAPACITY: usize = 200;

/// The command that opens a conversation's history.
pub open spec fn history_command() -> Seq<char> {
    "/history"@
}

/// The callback token of the step-back button.
pub open spec fn back_token() -> Seq<char> {
    "/back"@
}

/// The callback token of the step-forward button.
pub open spec fn forward_token() -> Seq<char> {
    "/forward"@
}

/// The callback token of the close button.
pub open spec fn close_token() -> Seq<char> {
    "/close"@
}

/// The kind of a callback's data, if it is one of the navigation tokens.
pub open spec fn callback_kind(data: Option<String>) -> Option<UpdateType> {
    match data {
        Some(d) => if d@ == back_token() {
            Some(UpdateType::Navi(NaviType::Back))
        } else if d@ == forward_token() {
            Some(UpdateType::Navi(NaviType::Forward))
        } else if d@ == close_token() {
            Some(UpdateType::Navi(NaviType::Close))
        } else {
            None
        },
        None => None,
    }
}

/// How an update is classified. A new message decides by its text alone
/// (none when it has no text); only an update without a message is looked at
/// as a callback.
pub open spec fn update_kind(u: Update) -> Option<UpdateType> {
    match u.message {
        Some(m) => match m.text {
            Some(t) => if t@ == history_command() {
                Some(UpdateType::Navi(NaviType::History))
            } else {
                Some(UpdateType::Save)
            },
            None => None,
        },
        None => match u.callback_query {
            Some(c) => callback_kind(c.data),
            None => None,
        },
    }
}

/// Where the router sends an update.
#[derive(Clone, Debug, PartialEq, Eq)]
pub enum Route {
    /// To the recorder, tagged as a message to save.
    Save(Update),
    /// To the navigator, tagged with its navigation kind.
    Navi(Update),
    /// Nowhere: the update has no recognised shape.
    Unrecognized,
}

/// The update as it is dispatched: the same update, tagged with its kind.
pub open spec fn tagged(u: Update, kind: UpdateType) -> Update {
    Update { update_type: Some(kind), ..u }
}

/// The route of an update: by its kind, or nowhere when it has none.
pub open spec fn route_of(u: Update) -> Route {
    match update_kind(u) {
        Some(UpdateType::Save) => Route::Save(tagged(u, UpdateType::Save)),
        Some(UpdateType::Navi(k)) => Route::Navi(tagged(u, UpdateType::Navi(k))),
        None => Route::Unrecognized,
    }
}

/// Whether `s` holds exactly the characters of `lit`.
fn text_is(s: &String, lit: &str) -> (r: bool)
    ensures
        r == (s@ == lit@),
{
    let other = String::from_str(lit);
    *s == other
}

/// Classifies an update (see `update_kind`).
pub fn get_update_type(upd: &Update) -> (r: Option<UpdateType>)
    ensures
        r == update_kind(*upd),
{
    match &upd.message {
        Some(msg) => match &msg.text {
            Some(txt) => if text_is(txt, "/history") {
                Some(UpdateType::Navi(NaviType::History))
            } else {
                Some(UpdateType::Save)
            },
            None => None,
        },
        None => match &upd.callback_query {
            Some(cbq) => match &cbq.data {
                Some(d) => if text_is(d, "/back") {
                    Some(UpdateType::Navi(NaviType::Back))
                } else if text_is(d, "/forward") {
                    Some(UpdateType::Navi(NaviType::Forward))
                } else if text_is(d, "/close") {
                    Some(UpdateType::Navi(NaviType::Close))
                } else {
                    None
                },
                None => None,
            },
            None => None,
        },
    }
}

/// The poller's state: the offset that the next long-poll asks from.
pub struct Router {
    offset: i64,
}

impl View for Router {
    type V = int;

    closed spec fn view(&self) -> int {
        self.offset as int
    }
}

impl Router {
    /// A router that has seen no update: it polls from offset 0, the first
    /// update identifier.
    pub fn new() -> (r: Router)
        ensures
            r@ == 0,
    {
        Router { offset: 0 }
    }

    /// The offset that the next long-poll carries.
    pub fn offset(&self) -> (r: i64)
        ensures
            r == self@,
    {
        self.offset
    }

    /// Takes one polled update: the offset moves past it at once, then the
    /// update is classified and routed.
    pub fn route(&mut self, upd: Update) -> (r: Route)
        requires
            upd.update_id < i64::MAX,
        ensures
            final(self)@ == upd.update_id + 1,
            r == route_of(upd),
    {
        self.offset = upd.update_id + 1;
        let kind = get_update_type(&upd);
        match kind {
            Some(UpdateType::Save) => Route::Save(Update { update_type: kind, ..upd }),
            Some(UpdateType::Navi(_)) => Route::Navi(Update { update_type: kind, ..upd }),
            None => Route::Unrecognized,
        }
    }

    /// Takes one poll's updates in arrival order: each one is routed as
    /// `route` does, so the offset ends past the last of them.
    pub fn route_all(&mut self, batch: Vec<Update>) -> (r: Vec<Route>)
        requires
            forall|i: int| 0 <= i < batch@.len() ==> #[trigger] batch@[i].update_id < i64::MAX,
        ensures
            r@.len() == batch@.len(),
            forall|i: int| 0 <= i < batch@.len() ==> #[trigger] r@[i] == route_of(batch@[i]),
            batch@.len() == 0 ==> final(self)@ == old(self)@,
            batch@.len() > 0 ==> final(self)@ == batch@.last().update_id + 1,
    {
        let ghost all = batch@;
        let mut rest = batch;
        let mut routes: Vec<Route> = Vec::new();
        while rest.len() > 0
            invariant
                rest@ == all.skip(routes@.len() as int),
                routes@.len() <= all.len(),
                forall|i: int| 0 <= i < all.len() ==> #[trigger] all[i].update_id < i64::MAX,
                forall|i: int| 0 <= i < routes@.len() ==> #[trigger] routes@[i] == route_of(all[i]),
                routes@.len() == 0 ==> self@ == old(self)@,
                routes@.len() > 0 ==> self@ == all[routes@.len() - 1].update_id + 1,
            decreases rest@.len(),
        {
            let upd = rest.remove(0);
            assert(upd == all[routes@.len() as int]);
            let route = self.route(upd);
            routes.push(route);
            assert(rest@ =~= all.skip(routes@.len() as int));
        }
        routes
    }
}

/// Routing loses no update in silence: an update goes nowhere exactly when it
/// has no kind, and otherwise it is dispatched whole, tagged with its kind, to
/// the consumer of that kind.
pub proof fn lemma_route_accounts(u: Update)
    ensures
        (route_of(u) is Unrecognized) <==> (update_kind(u) is None),
        route_of(u) is Save <==> update_kind(u) == Some(UpdateType::Save),
        route_of(u) is Navi <==> (update_kind(u) is Some && update_kind(u) != Some(UpdateType::Save)),
        route_of(u) is Save ==> route_of(u)->Save_0 == tagged(u, UpdateType::Save),
        route_of(u) is Navi ==> route_of(u)->Navi_0 == tagged(u, update_kind(u)->0),
        route_of(u) is Save ==> u.message is Some,
{
}

} // verus!
