use graphina::error::{GraphinaError, GraphinaErrorKind};

#[test]
fn test_graphina_error() {
    let pair = [
        (
            GraphinaError::algorithm_error("algorithm error"),
            r#"GraphinaError { kind: AlgorithmError, message: "algorithm error" }"#,
        ),
        (
            GraphinaError::no_path("not path found"),
            r#"GraphinaError { kind: NoPath, message: "not path found" }"#,
        ),
        (
            GraphinaError::no_cycle("not cycle found"),
            r#"GraphinaError { kind: NoCycle, message: "not cycle found" }"#,
        ),
        (
            GraphinaError::node_not_found("cannot found node"),
            r#"GraphinaError { kind: NodeNotFound, message: "cannot found node" }"#,
        ),
        (
            GraphinaError::edge_not_found("cannot found edge"),
            r#"GraphinaError { kind: EdgeNotFound, message: "cannot found edge" }"#,
        ),
        (
            GraphinaError::empty_graph("graph is empty"),
            r#"GraphinaError { kind: EmptyGraph, message: "graph is empty" }"#,
        ),
        (
            GraphinaError::other("a generic error"),
            r#"GraphinaError { kind: Other, message: "a generic error" }"#,
        ),
    ];

    for (e, s) in pair {
        assert_eq!(e.render(), s)
    }
}

#[test]
fn every_constructor_renders_its_kind_name() {
    let cases = [
        (GraphinaError::pointless("m"), "PointlessConcept"),
        (GraphinaError::algorithm_error("m"), "AlgorithmError"),
        (GraphinaError::unfeasible("m"), "Unfeasible"),
        (GraphinaError::no_path("m"), "NoPath"),
        (GraphinaError::no_cycle("m"), "NoCycle"),
        (GraphinaError::node_not_found("m"), "NodeNotFound"),
        (GraphinaError::edge_not_found("m"), "EdgeNotFound"),
        (GraphinaError::has_a_cycle("m"), "HasACycle"),
        (GraphinaError::unbounded("m"), "Unbounded"),
        (GraphinaError::ambiguous_solution("m"), "AmbiguousSolution"),
        (GraphinaError::exceeded_max_iteration("m"), "ExceededMaxIterations"),
        (GraphinaError::empty_graph("m"), "EmptyGraph"),
        (GraphinaError::parse_error("m"), "ParseError"),
        (GraphinaError::other("m"), "Other"),
    ];
    for (e, name) in cases {
        assert_eq!(
            e.render(),
            format!("GraphinaError {{ kind: {}, message: \"m\" }}", name)
        );
    }
}

#[test]
fn every_constructor_sets_its_kind() {
    assert_eq!(GraphinaError::pointless("x").kind, GraphinaErrorKind::PointlessConcept);
    assert_eq!(GraphinaError::algorithm_error("x").kind, GraphinaErrorKind::AlgorithmError);
    assert_eq!(GraphinaError::unfeasible("x").kind, GraphinaErrorKind::Unfeasible);
    assert_eq!(GraphinaError::no_path("x").kind, GraphinaErrorKind::NoPath);
    assert_eq!(GraphinaError::no_cycle("x").kind, GraphinaErrorKind::NoCycle);
    assert_eq!(GraphinaError::node_not_found("x").kind, GraphinaErrorKind::NodeNotFound);
    assert_eq!(GraphinaError::edge_not_found("x").kind, GraphinaErrorKind::EdgeNotFound);
    assert_eq!(GraphinaError::has_a_cycle("x").kind, GraphinaErrorKind::HasACycle);
    assert_eq!(GraphinaError::unbounded("x").kind, GraphinaErrorKind::Unbounded);
    assert_eq!(GraphinaError::ambiguous_solution("x").kind, GraphinaErrorKind::AmbiguousSolution);
    assert_eq!(
        GraphinaError::exceeded_max_iteration("x").kind,
        GraphinaErrorKind::ExceededMaxIterations
    );
    assert_eq!(
        GraphinaError::power_iteration_failed_converge(7, "x").kind,
        GraphinaErrorKind::PowerIterationFailedConvergence { num_iterations: 7 }
    );
    assert_eq!(GraphinaError::empty_graph("x").kind, GraphinaErrorKind::EmptyGraph);
    assert_eq!(GraphinaError::parse_error("x").kind, GraphinaErrorKind::ParseError);
    assert_eq!(GraphinaError::other("x").kind, GraphinaErrorKind::Other);
}

#[test]
fn constructors_keep_the_message() {
    let e = GraphinaError::parse_error("line 3: unexpected token");
    assert_eq!(e.message, "line 3: unexpected token");
    let e = GraphinaError::power_iteration_failed_converge(5, "slow");
    assert_eq!(e.message, "slow");
}

#[test]
fn power_iteration_scenario() {
    let e = GraphinaError::power_iteration_failed_converge(100, "did not converge");
    assert_eq!(
        e.render(),
        "GraphinaError { kind: PowerIterationFailedConvergence { num_iterations: 100 }, message: \"did not converge\" }"
    );
}

#[test]
fn power_iteration_zero_and_largest_counts() {
    let e = GraphinaError::power_iteration_failed_converge(0, "m");
    assert_eq!(
        e.render(),
        "GraphinaError { kind: PowerIterationFailedConvergence { num_iterations: 0 }, message: \"m\" }"
    );
    let e = GraphinaError::power_iteration_failed_converge(usize::MAX, "m");
    assert_eq!(
        e.render(),
        format!(
            "GraphinaError {{ kind: PowerIterationFailedConvergence {{ num_iterations: {} }}, message: \"m\" }}",
            usize::MAX
        )
    );
    let e = GraphinaError::power_iteration_failed_converge(9010, "m");
    assert_eq!(
        e.render(),
        "GraphinaError { kind: PowerIterationFailedConvergence { num_iterations: 9010 }, message: \"m\" }"
    );
}

#[test]
fn empty_message_renders_empty_quotes() {
    let e = GraphinaError::unbounded("");
    assert_eq!(e.render(), "GraphinaError { kind: Unbounded, message: \"\" }");
}

#[test]
fn quotes_and_backslashes_are_escaped() {
    let e = GraphinaError::parse_error(r#"expected "node" at C:\graph"#);
    assert_eq!(
        e.render(),
        r#"GraphinaError { kind: ParseError, message: "expected \"node\" at C:\\graph" }"#
    );
    let e = GraphinaError::other("\\\"");
    assert_eq!(e.render(), r#"GraphinaError { kind: Other, message: "\\\"" }"#);
}

#[test]
fn other_characters_are_kept_as_they_are() {
    let e = GraphinaError::other("é ∞ 'q'");
    assert_eq!(e.render(), "GraphinaError { kind: Other, message: \"é ∞ 'q'\" }");
}

#[test]
fn rendering_twice_gives_the_same_text() {
    let e = GraphinaError::has_a_cycle("cycle a -> b -> a");
    let first = e.render();
    let second = e.render();
    assert_eq!(first, second);
    assert_eq!(e.clone().render(), first);
}

#[test]
fn different_kinds_render_differently() {
    let a = GraphinaError::power_iteration_failed_converge(1, "m").render();
    let b = GraphinaError::power_iteration_failed_converge(10, "m").render();
    let c = GraphinaError::unbounded("m").render();
    let d = GraphinaError::has_a_cycle("m").render();
    assert_ne!(a, b);
    assert_ne!(c, d);
}
