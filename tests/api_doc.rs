use todo_api::{ApiDoc, Method, RouteDoc, RoutePath, Shape};

#[test]
fn five_routes_are_documented() {
    let routes = ApiDoc::routes();
    assert_eq!(routes.len(), 5);
    let bound: Vec<(Method, &str)> = routes.iter().map(|r| (r.method, r.path.template())).collect();
    assert_eq!(
        bound,
        vec![
            (Method::Post, "/todos"),
            (Method::Get, "/todos"),
            (Method::Get, "/todos/{id}"),
            (Method::Put, "/todos/{id}"),
            (Method::Delete, "/todos/{id}"),
        ]
    );
}

#[test]
fn schemas_are_record_and_payload() {
    assert_eq!(ApiDoc::schemas(), vec![Shape::Todo, Shape::TodoInput]);
}

#[test]
fn route_lookup_finds_update() {
    let doc = ApiDoc::route(Method::Put, RoutePath::TodoById).unwrap();
    assert_eq!(
        doc,
        RouteDoc {
            method: Method::Put,
            path: RoutePath::TodoById,
            request_body: Some(Shape::TodoInput),
            success_body: Some(Shape::Todo),
            not_found: true,
        }
    );
    assert_eq!(doc.statuses(), vec![200, 404, 500]);
}

#[test]
fn route_lookup_misses_unbound_pair() {
    assert_eq!(ApiDoc::route(Method::Delete, RoutePath::Todos), None);
    assert_eq!(ApiDoc::route(Method::Put, RoutePath::Todos), None);
}

#[test]
fn create_route_has_no_not_found() {
    let doc = ApiDoc::route(Method::Post, RoutePath::Todos).unwrap();
    assert_eq!(doc.statuses(), vec![200, 500]);
    assert_eq!(doc.request_body, Some(Shape::TodoInput));
}
