//! Route declarations: which handler answers which method and path.

use vstd::prelude::*;

verus! {

/// The HTTP methods the routes answer.
#[derive(Clone, Copy, Debug, PartialEq, Eq, Structural)]
pub enum HttpMethod {
    Get,
    Post,
    Put,
    Delete,
}

/// A route: the method and path it answers and the handler that answers it.
#[derive(Clone, Copy, Debug)]
pub struct RouteDecl {
    pub method: HttpMethod,
    pub uri: &'static str,
    pub handler: &'static str,
}

/// A route as plain values.
pub struct RouteDeclView {
    pub method: HttpMethod,
    pub uri: Seq<char>,
    pub handler: Seq<char>,
}

impl View for RouteDecl {
    type V = RouteDeclView;

    open spec fn view(&self) -> RouteDeclView {
        RouteDeclView { method: self.method, uri: self.uri@, handler: self.handler@ }
    }
}

/// The views of a route table.
pub open spec fn route_views(s: Seq<RouteDecl>) -> Seq<RouteDeclView> {
    s.map_values(|r: RouteDecl| r@)
}

/// The views of a list of handler paths.
pub open spec fn handler_views(s: Seq<&'static str>) -> Seq<Seq<char>> {
    s.map_values(|h: &'static str| h@)
}

} // verus!
