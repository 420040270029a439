use qp_analyzer::AnalyzerError;
use qp_analyzer::QueryPlannerArgs;
use qp_analyzer::build_all_plans;
use qp_analyzer::build_one_plan;
use qp_analyzer::get_override_labels;

/// A supergraph of two subgraphs where `Query.hello` is progressively
/// overridden under the label `"test"`.
const OVERRIDE_SCHEMA: &str = r#"
schema
  @link(url: "https://specs.apollo.dev/link/v1.0")
  @link(url: "https://specs.apollo.dev/join/v0.5", for: EXECUTION)
{
  query: Query
}

directive @join__directive(graphs: [join__Graph!], name: String!, args: join__DirectiveArguments) repeatable on SCHEMA | OBJECT | INTERFACE | FIELD_DEFINITION

directive @join__enumValue(graph: join__Graph!) repeatable on ENUM_VALUE

directive @join__field(graph: join__Graph, requires: join__FieldSet, provides: join__FieldSet, type: String, external: Boolean, override: String, usedOverridden: Boolean, overrideLabel: String, contextArguments: [join__ContextArgument!]) repeatable on FIELD_DEFINITION | INPUT_FIELD_DEFINITION

directive @join__graph(name: String!, url: String!) on ENUM_VALUE

directive @join__implements(graph: join__Graph!, interface: String!) repeatable on OBJECT | INTERFACE

directive @join__type(graph: join__Graph!, key: join__FieldSet, extension: Boolean! = false, resolvable: Boolean! = true, isInterfaceObject: Boolean! = false) repeatable on OBJECT | INTERFACE | UNION | ENUM | INPUT_OBJECT | SCALAR

directive @join__unionMember(graph: join__Graph!, member: String!) repeatable on UNION

directive @link(url: String, as: String, for: link__Purpose, import: [link__Import]) repeatable on SCHEMA

input join__ContextArgument {
  name: String!
  type: String!
  context: String!
  selection: join__FieldValue!
}

scalar join__DirectiveArguments

scalar join__FieldSet

scalar join__FieldValue

enum join__Graph {
  S1 @join__graph(name: "s1", url: "none")
  S2 @join__graph(name: "s2", url: "none")
}

scalar link__Import

enum link__Purpose {
  SECURITY
  EXECUTION
}

type Query
  @join__type(graph: S1)
  @join__type(graph: S2)
{
  hello: String @join__field(graph: S1, overrideLabel: "test") @join__field(graph: S2, override: "s1", overrideLabel: "test")
}
"#;

/// The same supergraph without any progressive override: no labels at all.
const PLAIN_SCHEMA: &str = r#"
schema
  @link(url: "https://specs.apollo.dev/link/v1.0")
  @link(url: "https://specs.apollo.dev/join/v0.5", for: EXECUTION)
{
  query: Query
}

directive @join__directive(graphs: [join__Graph!], name: String!, args: join__DirectiveArguments) repeatable on SCHEMA | OBJECT | INTERFACE | FIELD_DEFINITION

directive @join__enumValue(graph: join__Graph!) repeatable on ENUM_VALUE

directive @join__field(graph: join__Graph, requires: join__FieldSet, provides: join__FieldSet, type: String, external: Boolean, override: String, usedOverridden: Boolean, overrideLabel: String, contextArguments: [join__ContextArgument!]) repeatable on FIELD_DEFINITION | INPUT_FIELD_DEFINITION

directive @join__graph(name: String!, url: String!) on ENUM_VALUE

directive @join__implements(graph: join__Graph!, interface: String!) repeatable on OBJECT | INTERFACE

directive @join__type(graph: join__Graph!, key: join__FieldSet, extension: Boolean! = false, resolvable: Boolean! = true, isInterfaceObject: Boolean! = false) repeatable on OBJECT | INTERFACE | UNION | ENUM | INPUT_OBJECT | SCALAR

directive @join__unionMember(graph: join__Graph!, member: String!) repeatable on UNION

directive @link(url: String, as: String, for: link__Purpose, import: [link__Import]) repeatable on SCHEMA

input join__ContextArgument {
  name: String!
  type: String!
  context: String!
  selection: join__FieldValue!
}

scalar join__DirectiveArguments

scalar join__FieldSet

scalar join__FieldValue

enum join__Graph {
  S1 @join__graph(name: "s1", url: "none")
}

scalar link__Import

enum link__Purpose {
  SECURITY
  EXECUTION
}

type Query
  @join__type(graph: S1)
{
  hello: String @join__field(graph: S1)
}
"#;

const QUERY: &str = "{ hello }";
const QUERY_PATH: &str = "query.graphql";

fn strings(names: &[&str]) -> Vec<String> {
    names.iter().map(|s| s.to_string()).collect()
}

/// A supergraph like `OVERRIDE_SCHEMA` but with one overridden field per
/// label in `names`, so the schema defines exactly those override labels.
fn many_labels_schema(names: &[String]) -> String {
    let mut fields = String::new();
    for (i, name) in names.iter().enumerate() {
        fields.push_str(&format!(
            "  f{i}: String @join__field(graph: S1, overrideLabel: \"{name}\") @join__field(graph: S2, override: \"s1\", overrideLabel: \"{name}\")\n"
        ));
    }
    let body = OVERRIDE_SCHEMA
        .split("type Query")
        .next()
        .expect("schema prefix");
    format!(
        "{body}type Query\n  @join__type(graph: S1)\n  @join__type(graph: S2)\n{{\n{fields}}}\n"
    )
}

#[test]
fn discovers_many_labels() {
    let names: Vec<String> = (0..64).map(|i| format!("label{i:02}")).collect();
    let schema = many_labels_schema(&names);
    let labels = get_override_labels(&schema).expect("schema should compile");
    assert_eq!(labels.len(), 64);
    for name in &names {
        assert!(labels.contains(name));
    }
}

#[test]
fn batch_refuses_a_label_set_too_large_to_enumerate() {
    let names: Vec<String> = (0..64).map(|i| format!("label{i:02}")).collect();
    let schema = many_labels_schema(&names);
    let args = QueryPlannerArgs::default();
    let r = build_all_plans(&schema, "{ f0 }", QUERY_PATH, &args, false);
    assert!(matches!(
        r,
        Err(AnalyzerError::TooManyOverrideLabels { label_count: 64 })
    ));
}

#[test]
fn discovers_the_override_label() {
    let labels = get_override_labels(OVERRIDE_SCHEMA).expect("schema should compile");
    assert_eq!(labels, strings(&["test"]));
}

#[test]
fn discovers_no_labels_in_a_plain_schema() {
    let labels = get_override_labels(PLAIN_SCHEMA).expect("schema should compile");
    assert_eq!(labels, Vec::<String>::new());
}

#[test]
fn rejects_a_malformed_schema() {
    let r = get_override_labels("type Query { hello: String }");
    assert!(matches!(r, Err(AnalyzerError::Schema { .. })));
}

#[test]
fn builds_one_plan_per_combination_in_order() {
    let args = QueryPlannerArgs::default();
    let results =
        build_all_plans(OVERRIDE_SCHEMA, QUERY, QUERY_PATH, &args, false).expect("batch");
    assert_eq!(results.len(), 2);
    assert_eq!(
        results[0].query_plan_config.override_conditions,
        Vec::<String>::new()
    );
    assert_eq!(results[1].query_plan_config.override_conditions, strings(&["test"]));
    assert!(!results[0].query_plan_display.is_empty());
    assert!(!results[1].query_plan_display.is_empty());
}

#[test]
fn plain_schema_batch_yields_exactly_one_record() {
    let args = QueryPlannerArgs::default();
    let results = build_all_plans(PLAIN_SCHEMA, QUERY, QUERY_PATH, &args, false).expect("batch");
    assert_eq!(results.len(), 1);
    assert_eq!(
        results[0].query_plan_config.override_conditions,
        Vec::<String>::new()
    );
}

#[test]
fn batch_verbose_mode_reports_progress_and_plans() {
    let args = QueryPlannerArgs::default();
    let results = build_all_plans(OVERRIDE_SCHEMA, QUERY, QUERY_PATH, &args, true).expect("batch");
    assert_eq!(results.len(), 2);
    assert!(results[0].query_plan_display.contains("QueryPlan"));
    assert!(results[1].query_plan_display.contains("QueryPlan"));
}

#[test]
fn batch_rejects_a_malformed_query() {
    let args = QueryPlannerArgs::default();
    let r = build_all_plans(OVERRIDE_SCHEMA, "{ goodbye }", QUERY_PATH, &args, false);
    assert!(matches!(r, Err(AnalyzerError::Document { .. })));
}

#[test]
fn builds_a_single_plan_for_an_explicit_combination() {
    let args = QueryPlannerArgs::default();
    let result = build_one_plan(
        OVERRIDE_SCHEMA,
        QUERY,
        QUERY_PATH,
        &args,
        strings(&["test"]),
        false,
    )
    .expect("single plan");
    assert_eq!(result.query_plan_config.override_conditions, strings(&["test"]));
    assert!(!result.query_plan_display.is_empty());
}

#[test]
fn override_all_expands_to_every_label() {
    let args = QueryPlannerArgs::default();
    let result =
        build_one_plan(OVERRIDE_SCHEMA, QUERY, QUERY_PATH, &args, strings(&[]), true)
            .expect("single plan");
    assert_eq!(result.query_plan_config.override_conditions, strings(&["test"]));
}

#[test]
fn override_all_with_explicit_candidates_is_a_conflict() {
    let args = QueryPlannerArgs::default();
    let r = build_one_plan(
        OVERRIDE_SCHEMA,
        QUERY,
        QUERY_PATH,
        &args,
        strings(&["test"]),
        true,
    );
    assert!(matches!(r, Err(AnalyzerError::OverrideAllConflict)));
}

#[test]
fn single_plan_rejects_an_unknown_label() {
    let args = QueryPlannerArgs::default();
    let r = build_one_plan(
        OVERRIDE_SCHEMA,
        QUERY,
        QUERY_PATH,
        &args,
        strings(&["nope"]),
        false,
    );
    match r {
        Err(AnalyzerError::UnknownOverrideLabel { label, known }) => {
            assert_eq!(label, "nope");
            assert_eq!(known, strings(&["test"]));
        }
        other => panic!("expected an unknown-label error, got {:?}", other.map(|_| ())),
    }
}

#[test]
fn single_plan_rejects_a_duplicate_label() {
    let args = QueryPlannerArgs::default();
    let r = build_one_plan(
        OVERRIDE_SCHEMA,
        QUERY,
        QUERY_PATH,
        &args,
        strings(&["test", "test"]),
        false,
    );
    match r {
        Err(AnalyzerError::DuplicateOverrideLabel { label }) => {
            assert_eq!(label, "test");
        }
        other => panic!("expected a duplicate-label error, got {:?}", other.map(|_| ())),
    }
}
