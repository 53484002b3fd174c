//! Screens, navigation instructions, and the navigation state of a column.

use crate::ids::NoteId;
use crate::timeline::{TimelineKey, TimelineKind};
use crate::zaps::NoteZapTargetOwned;
use vstd::prelude::*;

verus! {

/// A screen.
#[derive(Debug, PartialEq, Eq)]
pub enum Route {
    /// The feed of that identity.
    Timeline(TimelineKind),
    /// The composer for a reply to the note.
    Reply(NoteId),
    /// The composer for a quote of the note.
    Quote(NoteId),
    /// The entry of the amount of a tip for the target.
    CustomizeZapAmount(NoteZapTargetOwned),
}

/// The mathematical value of a `Route`.
pub enum RouteView {
    Timeline(TimelineKey),
    Reply(NoteId),
    Quote(NoteId),
    CustomizeZapAmount(NoteZapTargetOwned),
}

impl View for Route {
    type V = RouteView;

    open spec fn view(&self) -> RouteView {
        match self {
            Route::Timeline(kind) => RouteView::Timeline(kind@),
            Route::Reply(id) => RouteView::Reply(*id),
            Route::Quote(id) => RouteView::Quote(*id),
            Route::CustomizeZapAmount(target) => RouteView::CustomizeZapAmount(*target),
        }
    }
}

impl Clone for Route {
    fn clone(&self) -> (copy: Route)
        ensures
            copy@ == self@,
    {
        match self {
            Route::Timeline(kind) => Route::Timeline(kind.clone()),
            Route::Reply(id) => Route::Reply(*id),
            Route::Quote(id) => Route::Quote(*id),
            Route::CustomizeZapAmount(target) => Route::CustomizeZapAmount(*target),
        }
    }
}

impl Route {
    /// The composer for a reply to `replying_to`.
    pub fn reply(replying_to: NoteId) -> (route: Route)
        ensures
            route@ == RouteView::Reply(replying_to),
    {
        Route::Reply(replying_to)
    }

    /// The composer for a quote of `quoting`.
    pub fn quote(quoting: NoteId) -> (route: Route)
        ensures
            route@ == RouteView::Quote(quoting),
    {
        Route::Quote(quoting)
    }

    /// The feed `kind`.
    pub fn timeline(kind: TimelineKind) -> (route: Route)
        ensures
            route@ == RouteView::Timeline(kind@),
    {
        Route::Timeline(kind)
    }
}

/// The two navigation contexts of a column: the sheet that lies over the
/// screens, and the stack of screens.
#[derive(Clone, Copy, Debug, PartialEq, Eq, Structural, Hash)]
pub enum RouterType {
    Sheet,
    Stack,
}

/// What the navigation layer has to do next.
#[derive(Debug, PartialEq, Eq)]
pub enum RouterAction {
    /// Leave what is on top.
    GoBack,
    /// Show the screen: pushed on the stack, or as the content of the sheet.
    RouteTo(Route, RouterType),
}

/// The mathematical value of a `RouterAction`.
pub enum RouterActionView {
    GoBack,
    RouteTo(RouteView, RouterType),
}

impl View for RouterAction {
    type V = RouterActionView;

    open spec fn view(&self) -> RouterActionView {
        match self {
            RouterAction::GoBack => RouterActionView::GoBack,
            RouterAction::RouteTo(route, router_type) => RouterActionView::RouteTo(
                route@,
                *router_type,
            ),
        }
    }
}

/// The mathematical value of a navigation instruction that may be absent.
pub open spec fn router_action_view(action: Option<RouterAction>) -> Option<RouterActionView> {
    match action {
        Some(a) => Some(a@),
        None => None,
    }
}

impl RouterAction {
    /// The instruction to push `route` on the stack of screens.
    pub fn route_to(route: Route) -> (action: RouterAction)
        ensures
            action@ == RouterActionView::RouteTo(route@, RouterType::Stack),
    {
        RouterAction::RouteTo(route, RouterType::Stack)
    }

    /// The instruction to show `route` in the sheet.
    pub fn route_to_sheet(route: Route) -> (action: RouterAction)
        ensures
            action@ == RouterActionView::RouteTo(route@, RouterType::Sheet),
    {
        RouterAction::RouteTo(route, RouterType::Sheet)
    }
}

/// The views of the screens of a list.
pub open spec fn route_views(routes: Seq<Route>) -> Seq<RouteView> {
    routes.map_values(|r: Route| r@)
}

/// The navigation state of one column: its stack of screens, and the
/// screens of the sheet that lies over it. The last of each list is on top.
pub struct Column {
    pub routes: Vec<Route>,
    pub sheet: Vec<Route>,
}

/// The mathematical value of a `Column`.
pub struct ColumnView {
    pub routes: Seq<RouteView>,
    pub sheet: Seq<RouteView>,
}

impl View for Column {
    type V = ColumnView;

    open spec fn view(&self) -> ColumnView {
        ColumnView { routes: route_views(self.routes@), sheet: route_views(self.sheet@) }
    }
}

/// The navigation context that is active: the sheet where it shows a
/// screen, else the stack.
pub open spec fn active_router(column: ColumnView) -> RouterType {
    if column.sheet.len() > 0 {
        RouterType::Sheet
    } else {
        RouterType::Stack
    }
}

impl Column {
    /// A column that shows nothing.
    pub fn new() -> (column: Column)
        ensures
            column@ == (ColumnView { routes: Seq::empty(), sheet: Seq::empty() }),
    {
        let column = Column { routes: Vec::new(), sheet: Vec::new() };
        assert(route_views(column.routes@) =~= Seq::empty());
        column
    }

    /// Pushes `route` on the stack of screens.
    pub fn push(&mut self, route: Route)
        ensures
            final(self)@ == (ColumnView {
                routes: old(self)@.routes.push(route@),
                sheet: old(self)@.sheet,
            }),
    {
        self.routes.push(route);
        assert(route_views(self.routes@) =~= route_views(old(self).routes@).push(route@));
    }

    /// Pushes `route` on the sheet.
    pub fn push_modal(&mut self, route: Route)
        ensures
            final(self)@ == (ColumnView {
                routes: old(self)@.routes,
                sheet: old(self)@.sheet.push(route@),
            }),
    {
        self.sheet.push(route);
        assert(route_views(self.sheet@) =~= route_views(old(self).sheet@).push(route@));
    }

    /// Takes the top screen off the sheet, if the sheet shows one.
    pub fn pop_modal(&mut self) -> (popped: Option<Route>)
        ensures
            old(self)@.sheet.len() == 0 ==> popped is None && final(self)@ == old(self)@,
            old(self)@.sheet.len() > 0 ==> {
                &&& popped is Some
                &&& popped->0@ == old(self)@.sheet.last()
                &&& final(self)@ == (ColumnView {
                    routes: old(self)@.routes,
                    sheet: old(self)@.sheet.drop_last(),
                })
            },
    {
        let popped = self.sheet.pop();
        assert(old(self)@.sheet.len() > 0 ==> route_views(self.sheet@) =~= route_views(
            old(self).sheet@,
        ).drop_last());
        popped
    }

    /// The screen that the sheet shows, if it shows one.
    pub fn current_modal(&self) -> (current: Option<&Route>)
        ensures
            self@.sheet.len() == 0 ==> current is None,
            self@.sheet.len() > 0 ==> current is Some && current->0@ == self@.sheet.last(),
    {
        let n = self.sheet.len();
        if n == 0 {
            None
        } else {
            Some(&self.sheet[n - 1])
        }
    }

    /// The navigation context that is active.
    pub fn router_type(&self) -> (router_type: RouterType)
        ensures
            router_type == active_router(self@),
    {
        if self.current_modal().is_some() {
            RouterType::Sheet
        } else {
            RouterType::Stack
        }
    }
}

} // verus!
