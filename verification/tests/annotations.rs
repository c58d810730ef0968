use uniprot_adaptor::driver::{annotate, decode_envelope, encode_envelope, first_results};
use uniprot_adaptor::project::process_result_item;
use uniprot_adaptor::schema::{AnnotationError, Gene, GeneWrapper, Keyword, ResultItem};

const PAYLOAD: &str = r#"{"apiVersion":"5.0","time":3,"params":{"species":"hsapiens","limit":"10"},"responses":[{"time":2,"numResults":1,"results":[{"accession":["P1"],"gene":[{"name":[{"value":"BRCA1"},{"value":"BRCA1v2"}]}],"keyword":[{"value":"DNA repair"}]}]}]}"#;

fn make_item(acc: &[&str], wrappers: &[&[&str]], kws: &[&str]) -> ResultItem {
    ResultItem {
        accession: acc.iter().map(|s| s.to_string()).collect(),
        gene: wrappers
            .iter()
            .map(|names| GeneWrapper {
                name: names.iter().map(|n| Gene { value: n.to_string() }).collect(),
            })
            .collect(),
        keyword: kws.iter().map(|k| Keyword { value: k.to_string() }).collect(),
    }
}

#[test]
fn decode_example_payload() {
    let env = decode_envelope(PAYLOAD.as_bytes()).unwrap();
    assert_eq!(env.api_version, "5.0");
    assert_eq!(env.time, 3);
    assert_eq!(env.params.species, "hsapiens");
    assert_eq!(env.params.limit, "10");
    assert_eq!(env.responses.len(), 1);
    assert_eq!(env.responses[0].time, 2);
    assert_eq!(env.responses[0].num_results, 1);
    assert_eq!(env.responses[0].results.len(), 1);
    let item = &env.responses[0].results[0];
    assert_eq!(item.accession, vec!["P1".to_string()]);
    assert_eq!(item.gene.len(), 1);
    assert_eq!(item.gene[0].name.len(), 2);
    assert_eq!(item.keyword.len(), 1);
}

#[test]
fn annotate_example_payload() {
    let env = decode_envelope(PAYLOAD.as_bytes()).unwrap();
    let anns = annotate(&env).unwrap();
    assert_eq!(anns.len(), 1);
    let ann = &anns[0];
    assert_eq!(ann.accession.len(), 1);
    assert_eq!(ann.accession[0], "P1");
    assert_eq!(ann.gene.len(), 2);
    assert_eq!(ann.gene[0].as_str(), "BRCA1");
    assert_eq!(ann.gene[1].as_str(), "BRCA1v2");
    assert_eq!(ann.keyword.len(), 1);
    assert_eq!(ann.keyword[0].as_str(), "DNA repair");
}

#[test]
fn round_trip_preserves_envelope() {
    let env = decode_envelope(PAYLOAD.as_bytes()).unwrap();
    let bytes = encode_envelope(&env);
    let env2 = decode_envelope(&bytes).unwrap();
    assert_eq!(env, env2);
}

#[test]
fn round_trip_with_several_groups_and_items() {
    let payload = r#"{"apiVersion":"5.0","time":7,"params":{"species":"mmusculus","limit":"2"},"responses":[{"time":1,"numResults":9,"results":[{"accession":[],"gene":[],"keyword":[]},{"accession":["Q1","Q2"],"gene":[{"name":[]},{"name":[{"value":"TP53"}]}],"keyword":[{"value":"x"},{"value":"y"}]}]},{"time":0,"numResults":0,"results":[]}]}"#;
    let env = decode_envelope(payload.as_bytes()).unwrap();
    assert_eq!(env.responses.len(), 2);
    let env2 = decode_envelope(&encode_envelope(&env)).unwrap();
    assert_eq!(env, env2);
}

#[test]
fn missing_responses_is_schema_mismatch() {
    let payload = r#"{"apiVersion":"5.0","time":3,"params":{"species":"hsapiens","limit":"10"}}"#;
    assert!(matches!(
        decode_envelope(payload.as_bytes()),
        Err(AnnotationError::SchemaMismatch)
    ));
}

#[test]
fn empty_responses_is_empty_result_set() {
    let payload = r#"{"apiVersion":"5.0","time":3,"params":{"species":"hsapiens","limit":"10"},"responses":[]}"#;
    let env = decode_envelope(payload.as_bytes()).unwrap();
    assert!(matches!(
        first_results(&env),
        Err(AnnotationError::EmptyResultSet)
    ));
    assert!(matches!(annotate(&env), Err(AnnotationError::EmptyResultSet)));
}

#[test]
fn string_where_integer_declared_is_schema_mismatch() {
    let payload = r#"{"apiVersion":"5.0","time":"3","params":{"species":"hsapiens","limit":"10"},"responses":[]}"#;
    assert!(matches!(
        decode_envelope(payload.as_bytes()),
        Err(AnnotationError::SchemaMismatch)
    ));
}

#[test]
fn integer_where_string_declared_is_schema_mismatch() {
    let payload = r#"{"apiVersion":5,"time":3,"params":{"species":"hsapiens","limit":"10"},"responses":[]}"#;
    assert!(matches!(
        decode_envelope(payload.as_bytes()),
        Err(AnnotationError::SchemaMismatch)
    ));
}

#[test]
fn top_level_not_an_object_is_schema_mismatch() {
    assert!(matches!(
        decode_envelope(b"[1,2,3]"),
        Err(AnnotationError::SchemaMismatch)
    ));
}

#[test]
fn malformed_text_is_schema_mismatch() {
    assert!(matches!(
        decode_envelope(b"{{{"),
        Err(AnnotationError::SchemaMismatch)
    ));
    assert!(matches!(
        decode_envelope(b""),
        Err(AnnotationError::SchemaMismatch)
    ));
}

#[test]
fn time_at_u32_limit_is_accepted() {
    let payload = r#"{"apiVersion":"5.0","time":4294967295,"params":{"species":"hsapiens","limit":"10"},"responses":[]}"#;
    let env = decode_envelope(payload.as_bytes()).unwrap();
    assert_eq!(env.time, u32::MAX);
}

#[test]
fn time_above_u32_limit_is_schema_mismatch() {
    let payload = r#"{"apiVersion":"5.0","time":4294967296,"params":{"species":"hsapiens","limit":"10"},"responses":[]}"#;
    assert!(matches!(
        decode_envelope(payload.as_bytes()),
        Err(AnnotationError::SchemaMismatch)
    ));
}

#[test]
fn negative_time_is_schema_mismatch() {
    let payload = r#"{"apiVersion":"5.0","time":-1,"params":{"species":"hsapiens","limit":"10"},"responses":[]}"#;
    assert!(matches!(
        decode_envelope(payload.as_bytes()),
        Err(AnnotationError::SchemaMismatch)
    ));
}

#[test]
fn fractional_time_is_schema_mismatch() {
    let payload = r#"{"apiVersion":"5.0","time":2.5,"params":{"species":"hsapiens","limit":"10"},"responses":[]}"#;
    assert!(matches!(
        decode_envelope(payload.as_bytes()),
        Err(AnnotationError::SchemaMismatch)
    ));
}

#[test]
fn missing_item_field_is_schema_mismatch() {
    let payload = r#"{"apiVersion":"5.0","time":3,"params":{"species":"hsapiens","limit":"10"},"responses":[{"time":2,"numResults":1,"results":[{"gene":[],"keyword":[]}]}]}"#;
    assert!(matches!(
        decode_envelope(payload.as_bytes()),
        Err(AnnotationError::SchemaMismatch)
    ));
}

#[test]
fn wrapper_without_name_is_schema_mismatch() {
    let payload = r#"{"apiVersion":"5.0","time":3,"params":{"species":"hsapiens","limit":"10"},"responses":[{"time":2,"numResults":1,"results":[{"accession":[],"gene":[{}],"keyword":[]}]}]}"#;
    assert!(matches!(
        decode_envelope(payload.as_bytes()),
        Err(AnnotationError::SchemaMismatch)
    ));
}

#[test]
fn unknown_keys_are_ignored() {
    let payload = r#"{"apiVersion":"5.0","time":3,"extra":true,"params":{"species":"hsapiens","limit":"10","skip":"0"},"responses":[]}"#;
    let env = decode_envelope(payload.as_bytes()).unwrap();
    assert_eq!(env.api_version, "5.0");
}

#[test]
fn num_results_is_not_validated_against_results_length() {
    let payload = r#"{"apiVersion":"5.0","time":3,"params":{"species":"hsapiens","limit":"10"},"responses":[{"time":2,"numResults":42,"results":[]}]}"#;
    let env = decode_envelope(payload.as_bytes()).unwrap();
    assert_eq!(env.responses[0].num_results, 42);
    assert!(env.responses[0].results.is_empty());
}

#[test]
fn projection_of_empty_wrapper_sequence_is_empty() {
    let item = make_item(&["A1"], &[], &["k"]);
    let ann = process_result_item(&item);
    assert!(ann.gene.is_empty());
    assert_eq!(ann.keyword.len(), 1);
}

#[test]
fn projection_flattens_in_wrapper_then_gene_order() {
    let item = make_item(
        &["A1", "A2"],
        &[&["a", "b"], &[], &["c"], &["d", "e"]],
        &["k1", "k2"],
    );
    let ann = process_result_item(&item);
    let genes: Vec<&str> = ann.gene.iter().map(|s| s.as_str()).collect();
    assert_eq!(genes, vec!["a", "b", "c", "d", "e"]);
    assert_eq!(ann.gene.len(), 2 + 0 + 1 + 2);
    let kws: Vec<&str> = ann.keyword.iter().map(|s| s.as_str()).collect();
    assert_eq!(kws, vec!["k1", "k2"]);
}

#[test]
fn projection_borrows_the_accession_sequence_itself() {
    let item = make_item(&["A1"], &[&["a"]], &[]);
    let ann = process_result_item(&item);
    assert!(std::ptr::eq(ann.accession, &item.accession));
    assert!(std::ptr::eq(ann.gene[0], &item.gene[0].name[0].value));
    assert_eq!(ann.accession, &item.accession);
}

#[test]
fn projection_preserves_item_order() {
    let payload = r#"{"apiVersion":"5.0","time":3,"params":{"species":"hsapiens","limit":"10"},"responses":[{"time":2,"numResults":2,"results":[{"accession":["P1"],"gene":[],"keyword":[]},{"accession":["P2"],"gene":[],"keyword":[]}]}]}"#;
    let env = decode_envelope(payload.as_bytes()).unwrap();
    let anns = annotate(&env).unwrap();
    assert_eq!(anns.len(), 2);
    assert_eq!(anns[0].accession[0], "P1");
    assert_eq!(anns[1].accession[0], "P2");
}

#[test]
fn only_the_first_group_is_projected() {
    let payload = r#"{"apiVersion":"5.0","time":3,"params":{"species":"hsapiens","limit":"10"},"responses":[{"time":2,"numResults":1,"results":[{"accession":["P1"],"gene":[],"keyword":[]}]},{"time":2,"numResults":1,"results":[{"accession":["P9"],"gene":[],"keyword":[]}]}]}"#;
    let env = decode_envelope(payload.as_bytes()).unwrap();
    let anns = annotate(&env).unwrap();
    assert_eq!(anns.len(), 1);
    assert_eq!(anns[0].accession[0], "P1");
}
