use vstd::prelude::*;

verus! {

/// The HTTP methods that the service binds.
#[derive(Debug, Clone, Copy, PartialEq, Eq, Structural)]
pub enum Method {
    Get,
    Post,
    Put,
    Delete,
}

/// The two path templates of the service.
#[derive(Debug, Clone, Copy, PartialEq, Eq, Structural)]
pub enum RoutePath {
    Todos,
    TodoById,
}

/// The data shapes that requests and replies carry.
#[derive(Debug, Clone, Copy, PartialEq, Eq, Structural)]
pub enum Shape {
    Todo,
    TodoList,
    TodoInput,
}

/// One documented route: its method and path, the shape of its request body,
/// the shape of its successful reply (`None` for plain text), and whether it
/// can answer "not found".
#[derive(Debug, Clone, Copy, PartialEq, Eq, Structural)]
pub struct RouteDoc {
    pub method: Method,
    pub path: RoutePath,
    pub request_body: Option<Shape>,
    pub success_body: Option<Shape>,
    pub not_found: bool,
}

impl RoutePath {
    pub open spec fn spec_template(self) -> &'static str {
        match self {
            RoutePath::Todos => "/todos",
            RoutePath::TodoById => "/todos/{id}",
        }
    }

    /// The path template as routed, with `{id}` standing for the identifier.
    pub fn template(&self) -> (r: &'static str)
        ensures
            r == self.spec_template(),
    {
        match self {
            RoutePath::Todos => "/todos",
            RoutePath::TodoById => "/todos/{id}",
        }
    }
}

impl RouteDoc {
    pub open spec fn spec_statuses(self) -> Seq<u16> {
        if self.not_found {
            seq![200u16, 404u16, 500u16]
        } else {
            seq![200u16, 500u16]
        }
    }

    /// The status codes that the route documents, in increasing order.
    pub fn statuses(&self) -> (r: Vec<u16>)
        ensures
            r@ == self.spec_statuses(),
    {
        let mut v: Vec<u16> = Vec::new();
        v.push(200);
        if self.not_found {
            v.push(404);
        }
        v.push(500);
        proof {
            if self.not_found {
                assert(v@ =~= seq![200u16, 404u16, 500u16]);
            } else {
                assert(v@ =~= seq![200u16, 500u16]);
            }
        }
        v
    }
}

/// The static description of the service's routes and data shapes.
pub struct ApiDoc;

impl ApiDoc {
    pub open spec fn spec_routes() -> Seq<RouteDoc> {
        seq![
            RouteDoc {
                method: Method::Post,
                path: RoutePath::Todos,
                request_body: Some(Shape::TodoInput),
                success_body: Some(Shape::Todo),
                not_found: false,
            },
            RouteDoc {
                method: Method::Get,
                path: RoutePath::Todos,
                request_body: None,
                success_body: Some(Shape::TodoList),
                not_found: false,
            },
            RouteDoc {
                method: Method::Get,
                path: RoutePath::TodoById,
                request_body: None,
                success_body: Some(Shape::Todo),
                not_found: true,
            },
            RouteDoc {
                method: Method::Put,
                path: RoutePath::TodoById,
                request_body: Some(Shape::TodoInput),
                success_body: Some(Shape::Todo),
                not_found: true,
            },
            RouteDoc {
                method: Method::Delete,
                path: RoutePath::TodoById,
                request_body: None,
                success_body: None,
                not_found: true,
            },
        ]
    }

    /// The five routes: create, list, get, update and delete.
    pub fn routes() -> (r: Vec<RouteDoc>)
        ensures
            r@ == Self::spec_routes(),
    {
        let mut v: Vec<RouteDoc> = Vec::new();
        v.push(
            RouteDoc {
                method: Method::Post,
                path: RoutePath::Todos,
                request_body: Some(Shape::TodoInput),
                success_body: Some(Shape::Todo),
                not_found: false,
            },
        );
        v.push(
            RouteDoc {
                method: Method::Get,
                path: RoutePath::Todos,
                request_body: None,
                success_body: Some(Shape::TodoList),
                not_found: false,
            },
        );
        v.push(
            RouteDoc {
                method: Method::Get,
                path: RoutePath::TodoById,
                request_body: None,
                success_body: Some(Shape::Todo),
                not_found: true,
            },
        );
        v.push(
            RouteDoc {
                method: Method::Put,
                path: RoutePath::TodoById,
                request_body: Some(Shape::TodoInput),
                success_body: Some(Shape::Todo),
                not_found: true,
            },
        );
        v.push(
            RouteDoc {
                method: Method::Delete,
                path: RoutePath::TodoById,
                request_body: None,
                success_body: None,
                not_found: true,
            },
        );
        assert(v@ =~= Self::spec_routes());
        v
    }

    /// The data shapes published as components: the record and the payload.
    pub fn schemas() -> (r: Vec<Shape>)
        ensures
            r@ == seq![Shape::Todo, Shape::TodoInput],
    {
        let mut v: Vec<Shape> = Vec::new();
        v.push(Shape::Todo);
        v.push(Shape::TodoInput);
        assert(v@ =~= seq![Shape::Todo, Shape::TodoInput]);
        v
    }

    /// The documented route for a method and a path, if the service binds it.
    pub fn route(method: Method, path: RoutePath) -> (r: Option<RouteDoc>)
        ensures
            r matches Some(d) ==> Self::spec_routes().contains(d) && d.method == method && d.path
                == path,
            r is None ==> forall|i: int|
                0 <= i < Self::spec_routes().len() ==> !(#[trigger] Self::spec_routes()[i].method
                    == method && Self::spec_routes()[i].path == path),
    {
        let routes = Self::routes();
        let mut i: usize = 0;
        while i < routes.len()
            invariant
                routes@ == Self::spec_routes(),
                i <= routes@.len(),
                forall|k: int|
                    0 <= k < i ==> !(#[trigger] routes@[k].method == method && routes@[k].path
                        == path),
            decreases routes@.len() - i,
        {
            let d = routes[i];
            if d.method == method && d.path == path {
                assert(routes@[i as int] == d);
                return Some(d);
            }
            i = i + 1;
        }
        None
    }
}

} // verus!
