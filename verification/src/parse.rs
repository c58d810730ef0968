//! Deserialization of the envelope schema from a JSON value tree.
//!
//! The spec functions here give the meaning of the schema: for each
//! entity they say which trees are accepted and what entity view an
//! accepted tree denotes.  The executable parser is proved to return
//! exactly that entity, and to fail exactly on the trees the spec
//! functions reject (a missing required field, a value of the wrong
//! type, or a top level that is not an object).

use vstd::prelude::*;
use crate::json::{JsonValue, field_of, elems_of, str_of, u32_of, obj_get};
use crate::schema::{
    ApiResponse, Params, Response, ResultItem, GeneWrapper, Gene, Keyword, AnnotationError,
    EnvelopeV, ParamsV, ResponseV, ResultItemV,
};

verus! {

/// Parses every element of `s` with `f`; accepted only when every
/// element is, preserving order.
pub open spec fn parse_all<T>(s: Seq<JsonValue>, f: spec_fn(JsonValue) -> Option<T>) -> Option<
    Seq<T>,
> {
    if forall|i: int| 0 <= i < s.len() ==> f(#[trigger] s[i]) is Some {
        Some(Seq::new(s.len(), |i: int| f(s[i])->0))
    } else {
        None
    }
}

/// A gene record: an object whose `value` field is a string.
pub open spec fn parse_gene(j: JsonValue) -> Option<Seq<char>> {
    match field_of(j, "value"@) {
        Some(v) => str_of(v),
        None => None,
    }
}

/// A keyword record: an object whose `value` field is a string.
pub open spec fn parse_keyword(j: JsonValue) -> Option<Seq<char>> {
    match field_of(j, "value"@) {
        Some(v) => str_of(v),
        None => None,
    }
}

pub open spec fn parse_strings(a: Seq<JsonValue>) -> Option<Seq<Seq<char>>> {
    parse_all(a, |x: JsonValue| str_of(x))
}

pub open spec fn parse_genes(a: Seq<JsonValue>) -> Option<Seq<Seq<char>>> {
    parse_all(a, |x: JsonValue| parse_gene(x))
}

pub open spec fn parse_keywords(a: Seq<JsonValue>) -> Option<Seq<Seq<char>>> {
    parse_all(a, |x: JsonValue| parse_keyword(x))
}

/// A gene wrapper: an object whose `name` field is an array of gene
/// records.
pub open spec fn parse_wrapper(j: JsonValue) -> Option<Seq<Seq<char>>> {
    match field_of(j, "name"@) {
        Some(n) => match elems_of(n) {
            Some(a) => parse_genes(a),
            None => None,
        },
        None => None,
    }
}

pub open spec fn parse_wrappers(a: Seq<JsonValue>) -> Option<Seq<Seq<Seq<char>>>> {
    parse_all(a, |x: JsonValue| parse_wrapper(x))
}

/// A result item: an object with an `accession` array of strings, a
/// `gene` array of gene wrappers and a `keyword` array of keyword
/// records, all three required.
pub open spec fn parse_item(j: JsonValue) -> Option<ResultItemV> {
    match (field_of(j, "accession"@), field_of(j, "gene"@), field_of(j, "keyword"@)) {
        (Some(av), Some(gv), Some(kv)) => match (elems_of(av), elems_of(gv), elems_of(kv)) {
            (Some(aa), Some(ga), Some(ka)) => match (
                parse_strings(aa),
                parse_wrappers(ga),
                parse_keywords(ka),
            ) {
                (Some(acc), Some(gene), Some(keyword)) => Some(
                    ResultItemV { accession: acc, gene, keyword },
                ),
                _ => None,
            },
            _ => None,
        },
        _ => None,
    }
}

pub open spec fn parse_items(a: Seq<JsonValue>) -> Option<Seq<ResultItemV>> {
    parse_all(a, |x: JsonValue| parse_item(x))
}

/// A result group: an object with numeric `time` and `numResults`
/// fields and a `results` array of result items, all three required.
pub open spec fn parse_response(j: JsonValue) -> Option<ResponseV> {
    match (field_of(j, "time"@), field_of(j, "numResults"@), field_of(j, "results"@)) {
        (Some(tv), Some(nv), Some(rv)) => match (u32_of(tv), u32_of(nv), elems_of(rv)) {
            (Some(t), Some(n), Some(ra)) => match parse_items(ra) {
                Some(results) => Some(
                    ResponseV { time: t as int, num_results: n as int, results },
                ),
                None => None,
            },
            _ => None,
        },
        _ => None,
    }
}

pub open spec fn parse_responses(a: Seq<JsonValue>) -> Option<Seq<ResponseV>> {
    parse_all(a, |x: JsonValue| parse_response(x))
}

/// The request parameters: an object with string `species` and `limit`
/// fields, both required.
pub open spec fn parse_params(j: JsonValue) -> Option<ParamsV> {
    match (field_of(j, "species"@), field_of(j, "limit"@)) {
        (Some(sv), Some(lv)) => match (str_of(sv), str_of(lv)) {
            (Some(species), Some(limit)) => Some(ParamsV { species, limit }),
            _ => None,
        },
        _ => None,
    }
}

/// The whole envelope: an object with a string `apiVersion`, a numeric
/// `time`, a `params` object and a `responses` array of result groups,
/// all four required.  The `responses` array may be empty here: an
/// empty group sequence is the driver's error, not a schema mismatch.
pub open spec fn parse_envelope(j: JsonValue) -> Option<EnvelopeV> {
    match (
        field_of(j, "apiVersion"@),
        field_of(j, "time"@),
        field_of(j, "params"@),
        field_of(j, "responses"@),
    ) {
        (Some(av), Some(tv), Some(pv), Some(rv)) => match (
            str_of(av),
            u32_of(tv),
            parse_params(pv),
            elems_of(rv),
        ) {
            (Some(api_version), Some(t), Some(params), Some(ra)) => match parse_responses(ra) {
                Some(responses) => Some(
                    EnvelopeV { api_version, time: t as int, params, responses },
                ),
                None => None,
            },
            _ => None,
        },
        _ => None,
    }
}

/// Law: a payload whose top level is not an object holding a
/// `responses` key is rejected whole — no envelope, and so no
/// annotation views, can come of it.
pub proof fn lemma_missing_responses_rejected(j: JsonValue)
    requires
        field_of(j, "responses"@) is None,
    ensures
        parse_envelope(j) is None,
{
}

fn parse_gene_x(j: &JsonValue) -> (r: Option<Gene>)
    ensures
        match r {
            Some(g) => parse_gene(*j) == Some(g@),
            None => parse_gene(*j) is None,
        },
{
    match j {
        JsonValue::Obj(es) => match obj_get(es, "value") {
            Some(v) => match v {
                JsonValue::Str(s) => Some(Gene { value: s.clone() }),
                _ => None,
            },
            None => None,
        },
        _ => None,
    }
}

fn parse_genes_x(a: &Vec<JsonValue>) -> (r: Option<Vec<Gene>>)
    ensures
        match r {
            Some(gs) => parse_genes(a@) == Some(gs@.map_values(|g: Gene| g@)),
            None => parse_genes(a@) is None,
        },
{
    let mut out: Vec<Gene> = Vec::new();
    let mut i: usize = 0;
    while i < a.len()
        invariant
            i <= a@.len(),
            out@.len() == i as int,
            forall|k: int| 0 <= k < i ==> parse_gene(#[trigger] a@[k]) is Some,
            forall|k: int| 0 <= k < i ==> out@[k]@ == parse_gene(#[trigger] a@[k])->0,
        decreases a@.len() - i,
    {
        match parse_gene_x(&a[i]) {
            Some(g) => out.push(g),
            None => {
                proof {
                    assert(parse_gene(a@[i as int]) is None);
                }
                return None;
            },
        }
        i += 1;
    }
    proof {
        assert(parse_genes(a@) is Some);
        assert(out@.map_values(|g: Gene| g@) =~= parse_genes(a@)->0) by {
            assert(forall|k: int|
                0 <= k < out@.len() ==> out@.map_values(|g: Gene| g@)[k] == #[trigger] out@[k]@);
        }
    }
    Some(out)
}

fn parse_string_x(j: &JsonValue) -> (r: Option<String>)
    ensures
        match r {
            Some(s) => str_of(*j) == Some(s@),
            None => str_of(*j) is None,
        },
{
    match j {
        JsonValue::Str(s) => Some(s.clone()),
        _ => None,
    }
}

fn parse_strings_x(a: &Vec<JsonValue>) -> (r: Option<Vec<String>>)
    ensures
        match r {
            Some(ss) => parse_strings(a@) == Some(ss@.map_values(|s: String| s@)),
            None => parse_strings(a@) is None,
        },
{
    let mut out: Vec<String> = Vec::new();
    let mut i: usize = 0;
    while i < a.len()
        invariant
            i <= a@.len(),
            out@.len() == i as int,
            forall|k: int| 0 <= k < i ==> str_of(#[trigger] a@[k]) is Some,
            forall|k: int| 0 <= k < i ==> out@[k]@ == str_of(#[trigger] a@[k])->0,
        decreases a@.len() - i,
    {
        match parse_string_x(&a[i]) {
            Some(s) => out.push(s),
            None => {
                proof {
                    assert(str_of(a@[i as int]) is None);
                }
                return None;
            },
        }
        i += 1;
    }
    proof {
        assert(parse_strings(a@) is Some);
        assert(out@.map_values(|s: String| s@) =~= parse_strings(a@)->0) by {
            assert(forall|k: int|
                0 <= k < out@.len() ==> out@.map_values(|s: String| s@)[k] == #[trigger] out@[k]@);
        }
    }
    Some(out)
}

fn parse_keyword_x(j: &JsonValue) -> (r: Option<Keyword>)
    ensures
        match r {
            Some(k) => parse_keyword(*j) == Some(k@),
            None => parse_keyword(*j) is None,
        },
{
    match j {
        JsonValue::Obj(es) => match obj_get(es, "value") {
            Some(v) => match v {
                JsonValue::Str(s) => Some(Keyword { value: s.clone() }),
                _ => None,
            },
            None => None,
        },
        _ => None,
    }
}

fn parse_keywords_x(a: &Vec<JsonValue>) -> (r: Option<Vec<Keyword>>)
    ensures
        match r {
            Some(ks) => parse_keywords(a@) == Some(ks@.map_values(|k: Keyword| k@)),
            None => parse_keywords(a@) is None,
        },
{
    let mut out: Vec<Keyword> = Vec::new();
    let mut i: usize = 0;
    while i < a.len()
        invariant
            i <= a@.len(),
            out@.len() == i as int,
            forall|k: int| 0 <= k < i ==> parse_keyword(#[trigger] a@[k]) is Some,
            forall|k: int| 0 <= k < i ==> out@[k]@ == parse_keyword(#[trigger] a@[k])->0,
        decreases a@.len() - i,
    {
        match parse_keyword_x(&a[i]) {
            Some(k) => out.push(k),
            None => {
                proof {
                    assert(parse_keyword(a@[i as int]) is None);
                }
                return None;
            },
        }
        i += 1;
    }
    proof {
        assert(parse_keywords(a@) is Some);
        assert(out@.map_values(|k: Keyword| k@) =~= parse_keywords(a@)->0) by {
            assert(forall|k: int|
                0 <= k < out@.len() ==> out@.map_values(|k2: Keyword| k2@)[k] == #[trigger] out@[k]@);
        }
    }
    Some(out)
}

fn parse_wrapper_x(j: &JsonValue) -> (r: Option<GeneWrapper>)
    ensures
        match r {
            Some(w) => parse_wrapper(*j) == Some(w@),
            None => parse_wrapper(*j) is None,
        },
{
    match j {
        JsonValue::Obj(es) => match obj_get(es, "name") {
            Some(n) => match n {
                JsonValue::Arr(a) => match parse_genes_x(a) {
                    Some(gs) => Some(GeneWrapper { name: gs }),
                    None => None,
                },
                _ => None,
            },
            None => None,
        },
        _ => None,
    }
}

fn parse_wrappers_x(a: &Vec<JsonValue>) -> (r: Option<Vec<GeneWrapper>>)
    ensures
        match r {
            Some(ws) => parse_wrappers(a@) == Some(ws@.map_values(|w: GeneWrapper| w@)),
            None => parse_wrappers(a@) is None,
        },
{
    let mut out: Vec<GeneWrapper> = Vec::new();
    let mut i: usize = 0;
    while i < a.len()
        invariant
            i <= a@.len(),
            out@.len() == i as int,
            forall|k: int| 0 <= k < i ==> parse_wrapper(#[trigger] a@[k]) is Some,
            forall|k: int| 0 <= k < i ==> out@[k]@ == parse_wrapper(#[trigger] a@[k])->0,
        decreases a@.len() - i,
    {
        match parse_wrapper_x(&a[i]) {
            Some(w) => out.push(w),
            None => {
                proof {
                    assert(parse_wrapper(a@[i as int]) is None);
                }
                return None;
            },
        }
        i += 1;
    }
    proof {
        assert(parse_wrappers(a@) is Some);
        assert(out@.map_values(|w: GeneWrapper| w@) =~= parse_wrappers(a@)->0) by {
            assert(forall|k: int|
                0 <= k < out@.len() ==> out@.map_values(|w: GeneWrapper| w@)[k]
                    == #[trigger] out@[k]@);
        }
    }
    Some(out)
}

fn parse_item_x(j: &JsonValue) -> (r: Option<ResultItem>)
    ensures
        match r {
            Some(it) => parse_item(*j) == Some(it@),
            None => parse_item(*j) is None,
        },
{
    match j {
        JsonValue::Obj(es) => match (obj_get(es, "accession"), obj_get(es, "gene"), obj_get(
            es,
            "keyword",
        )) {
            (Some(av), Some(gv), Some(kv)) => match (av, gv, kv) {
                (JsonValue::Arr(aa), JsonValue::Arr(ga), JsonValue::Arr(ka)) => match (
                    parse_strings_x(aa),
                    parse_wrappers_x(ga),
                    parse_keywords_x(ka),
                ) {
                    (Some(accession), Some(gene), Some(keyword)) => Some(
                        ResultItem { accession, gene, keyword },
                    ),
                    _ => None,
                },
                _ => None,
            },
            _ => None,
        },
        _ => None,
    }
}

fn parse_items_x(a: &Vec<JsonValue>) -> (r: Option<Vec<ResultItem>>)
    ensures
        match r {
            Some(its) => parse_items(a@) == Some(its@.map_values(|it: ResultItem| it@)),
            None => parse_items(a@) is None,
        },
{
    let mut out: Vec<ResultItem> = Vec::new();
    let mut i: usize = 0;
    while i < a.len()
        invariant
            i <= a@.len(),
            out@.len() == i as int,
            forall|k: int| 0 <= k < i ==> parse_item(#[trigger] a@[k]) is Some,
            forall|k: int| 0 <= k < i ==> out@[k]@ == parse_item(#[trigger] a@[k])->0,
        decreases a@.len() - i,
    {
        match parse_item_x(&a[i]) {
            Some(it) => out.push(it),
            None => {
                proof {
                    assert(parse_item(a@[i as int]) is None);
                }
                return None;
            },
        }
        i += 1;
    }
    proof {
        assert(parse_items(a@) is Some);
        assert(out@.map_values(|it: ResultItem| it@) =~= parse_items(a@)->0) by {
            assert(forall|k: int|
                0 <= k < out@.len() ==> out@.map_values(|it: ResultItem| it@)[k]
                    == #[trigger] out@[k]@);
        }
    }
    Some(out)
}

fn parse_u32_x(j: &JsonValue) -> (r: Option<u32>)
    ensures
        r == u32_of(*j),
{
    match j {
        JsonValue::Num(n) => if *n <= u32::MAX as u64 {
            Some(*n as u32)
        } else {
            None
        },
        _ => None,
    }
}

fn parse_response_x(j: &JsonValue) -> (r: Option<Response>)
    ensures
        match r {
            Some(resp) => parse_response(*j) == Some(resp@),
            None => parse_response(*j) is None,
        },
{
    match j {
        JsonValue::Obj(es) => match (obj_get(es, "time"), obj_get(es, "numResults"), obj_get(
            es,
            "results",
        )) {
            (Some(tv), Some(nv), Some(rv)) => match (parse_u32_x(tv), parse_u32_x(nv), rv) {
                (Some(time), Some(num_results), JsonValue::Arr(ra)) => match parse_items_x(ra) {
                    Some(results) => Some(Response { time, num_results, results }),
                    None => None,
                },
                _ => None,
            },
            _ => None,
        },
        _ => None,
    }
}

fn parse_responses_x(a: &Vec<JsonValue>) -> (r: Option<Vec<Response>>)
    ensures
        match r {
            Some(rs) => parse_responses(a@) == Some(rs@.map_values(|g: Response| g@)),
            None => parse_responses(a@) is None,
        },
{
    let mut out: Vec<Response> = Vec::new();
    let mut i: usize = 0;
    while i < a.len()
        invariant
            i <= a@.len(),
            out@.len() == i as int,
            forall|k: int| 0 <= k < i ==> parse_response(#[trigger] a@[k]) is Some,
            forall|k: int| 0 <= k < i ==> out@[k]@ == parse_response(#[trigger] a@[k])->0,
        decreases a@.len() - i,
    {
        match parse_response_x(&a[i]) {
            Some(resp) => out.push(resp),
            None => {
                proof {
                    assert(parse_response(a@[i as int]) is None);
                }
                return None;
            },
        }
        i += 1;
    }
    proof {
        assert(parse_responses(a@) is Some);
        assert(out@.map_values(|g: Response| g@) =~= parse_responses(a@)->0) by {
            assert(forall|k: int|
                0 <= k < out@.len() ==> out@.map_values(|g: Response| g@)[k]
                    == #[trigger] out@[k]@);
        }
    }
    Some(out)
}

fn parse_params_x(j: &JsonValue) -> (r: Option<Params>)
    ensures
        match r {
            Some(p) => parse_params(*j) == Some(p@),
            None => parse_params(*j) is None,
        },
{
    match j {
        JsonValue::Obj(es) => match (obj_get(es, "species"), obj_get(es, "limit")) {
            (Some(sv), Some(lv)) => match (parse_string_x(sv), parse_string_x(lv)) {
                (Some(species), Some(limit)) => Some(Params { species, limit }),
                _ => None,
            },
            _ => None,
        },
        _ => None,
    }
}

/// Deserializes one JSON value tree into the response envelope.
///
/// Succeeds exactly on the trees that `parse_envelope` accepts, and
/// then returns exactly the envelope that tree denotes; every other
/// tree is a schema mismatch.
pub fn envelope_of_json(j: &JsonValue) -> (r: Result<ApiResponse, AnnotationError>)
    ensures
        match r {
            Ok(env) => parse_envelope(*j) == Some(env@),
            Err(e) => parse_envelope(*j) is None && e == AnnotationError::SchemaMismatch,
        },
{
    let parsed = match j {
        JsonValue::Obj(es) => match (
            obj_get(es, "apiVersion"),
            obj_get(es, "time"),
            obj_get(es, "params"),
            obj_get(es, "responses"),
        ) {
            (Some(av), Some(tv), Some(pv), Some(rv)) => match (
                parse_string_x(av),
                parse_u32_x(tv),
                parse_params_x(pv),
                rv,
            ) {
                (Some(api_version), Some(time), Some(params), JsonValue::Arr(ra)) => match parse_responses_x(
                    ra,
                ) {
                    Some(responses) => Some(ApiResponse { api_version, time, params, responses }),
                    None => None,
                },
                _ => None,
            },
            _ => None,
        },
        _ => None,
    };
    match parsed {
        Some(env) => Ok(env),
        None => Err(AnnotationError::SchemaMismatch),
    }
}

} // verus!
