//! The shared project record (fact sheet) and the value types it carries.

use vstd::prelude::*;

verus! {

/// The three independent scope flags of a project.  Immutable once produced
/// and copied freely.
#[derive(Debug, Clone, Copy, PartialEq, Eq, Structural)]
pub struct ProjectScope {
    pub is_crud_required: bool,
    pub is_user_login_and_logout: bool,
    pub is_external_urls_required: bool,
}

/// One discovered HTTP endpoint.  The request body and the response are
/// carried as opaque JSON text: the logic never reads into them, only the
/// method, the dynamic flag and the route path decide anything.  Equality is
/// structural.
#[derive(Debug, PartialEq)]
pub struct RouteObject {
    pub is_route_dynamic: bool,
    pub method: String,
    pub request_body: String,
    pub response: String,
    pub route: String,
}

/// The mathematical value of a [`RouteObject`].
#[verifier::ext_equal]
pub struct RouteObjectView {
    pub is_route_dynamic: bool,
    pub method: Seq<char>,
    pub request_body: Seq<char>,
    pub response: Seq<char>,
    pub route: Seq<char>,
}

impl View for RouteObject {
    type V = RouteObjectView;

    open spec fn view(&self) -> RouteObjectView {
        RouteObjectView {
            is_route_dynamic: self.is_route_dynamic,
            method: self.method@,
            request_body: self.request_body@,
            response: self.response@,
            route: self.route@,
        }
    }
}

impl Clone for RouteObject {
    fn clone(&self) -> (r: Self)
        ensures
            r == *self,
    {
        RouteObject {
            is_route_dynamic: self.is_route_dynamic,
            method: self.method.clone(),
            request_body: self.request_body.clone(),
            response: self.response.clone(),
            route: self.route.clone(),
        }
    }
}

/// The sequence of mathematical values behind a vector of routes.
pub open spec fn routes_view(routes: Seq<RouteObject>) -> Seq<RouteObjectView> {
    routes.map_values(|r: RouteObject| r@)
}

/// The mathematical value of an optional owned string.
pub open spec fn opt_string_view(o: Option<String>) -> Option<Seq<char>> {
    match o {
        Some(s) => Some(s@),
        None => None,
    }
}

/// An absent text renders as the empty text wherever an optional field is
/// written into a prompt.
pub open spec fn opt_text(o: Option<Seq<char>>) -> Seq<char> {
    match o {
        Some(s) => s,
        None => Seq::empty(),
    }
}

/// The shared project record, lent by mutable reference to whichever agent is
/// currently executing.  Fields move from absent to present monotonically as
/// the pipeline advances; no agent erases a previously filled field.
#[derive(Debug, PartialEq)]
pub struct FactSheet {
    pub project_description: String,
    pub project_scope: Option<ProjectScope>,
    pub external_urls: Option<Vec<String>>,
    pub backend_code: Option<String>,
    pub api_endpoint_schema: Option<Vec<RouteObject>>,
}

/// The mathematical value of a [`FactSheet`].
#[verifier::ext_equal]
pub struct FactSheetView {
    pub project_description: Seq<char>,
    pub project_scope: Option<ProjectScope>,
    pub external_urls: Option<Seq<Seq<char>>>,
    pub backend_code: Option<Seq<char>>,
    pub api_endpoint_schema: Option<Seq<RouteObjectView>>,
}

impl View for FactSheet {
    type V = FactSheetView;

    open spec fn view(&self) -> FactSheetView {
        FactSheetView {
            project_description: self.project_description@,
            project_scope: self.project_scope,
            external_urls: match self.external_urls {
                Some(urls) => Some(urls@.map_values(|u: String| u@)),
                None => None,
            },
            backend_code: opt_string_view(self.backend_code),
            api_endpoint_schema: match self.api_endpoint_schema {
                Some(routes) => Some(routes_view(routes@)),
                None => None,
            },
        }
    }
}

} // verus!
