use oidc_gateway::route_guard::{Method, RouteGuard};
use oidc_gateway::todo::{CreateTodoRequest, Todo};

fn guard() -> RouteGuard {
    RouteGuard::new(
        "/auth".to_string(),
        vec!["/swagger-ui".to_string(), "/api-docs".to_string()],
    )
}

#[test]
fn callback_path_is_always_exempt() {
    let g = guard();
    assert!(!g.requires_auth("/auth", Method::Get));
    assert!(!g.requires_auth("/auth?code=abc&state=S1", Method::Get));
    for m in [
        Method::Get,
        Method::Post,
        Method::Put,
        Method::Delete,
        Method::Patch,
        Method::Head,
        Method::Options,
    ] {
        assert!(!g.requires_auth("/auth", m));
    }
}

#[test]
fn configured_prefixes_are_exempt() {
    let g = guard();
    assert!(!g.requires_auth("/swagger-ui/index.html", Method::Get));
    assert!(!g.requires_auth("/api-docs/openapi.json", Method::Get));
}

#[test]
fn everything_else_fails_closed() {
    let g = guard();
    assert!(g.requires_auth("/api/v1/todos", Method::Get));
    assert!(g.requires_auth("/api/v1/todos/7/done", Method::Post));
    assert!(g.requires_auth("/", Method::Get));
    assert!(g.requires_auth("", Method::Get));
    // A path that merely contains, but does not start with, an exempt
    // prefix still requires authentication.
    assert!(g.requires_auth("/api/auth", Method::Get));
}

#[test]
fn todo_create_and_transitions() {
    let request = CreateTodoRequest {
        title: "write report".to_string(),
        category: "work".to_string(),
        description: Some("quarterly".to_string()),
    };
    let mut todo = Todo::create(7, request, 1_000);
    assert_eq!(todo.id, 7);
    assert_eq!(todo.title, "write report");
    assert_eq!(todo.category, "work");
    assert_eq!(todo.description.as_deref(), Some("quarterly"));
    assert_eq!(todo.created_at, 1_000);
    assert!(todo.done_at.is_none());

    todo.mark_done(2_000);
    assert_eq!(todo.done_at, Some(2_000));
    assert_eq!(todo.created_at, 1_000);

    todo.mark_undone();
    assert!(todo.done_at.is_none());
    assert_eq!(todo.title, "write report");

    todo.apply_update(CreateTodoRequest {
        title: "send report".to_string(),
        category: "office".to_string(),
        description: None,
    });
    assert_eq!(todo.title, "send report");
    assert_eq!(todo.category, "office");
    assert!(todo.description.is_none());
    assert_eq!(todo.id, 7);
    assert_eq!(todo.created_at, 1_000);
}
