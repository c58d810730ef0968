//! Serialization of the envelope back into a JSON value tree.
//!
//! The contract of every function here is the round-trip law: the tree
//! it builds is accepted by the corresponding `parse` spec function and
//! denotes exactly the entity it was built from, so deserializing and
//! re-serializing an envelope loses no field value and no sequence
//! order.

use vstd::prelude::*;
use crate::json::{JsonValue, lookup};
use crate::schema::{ApiResponse, Params, Response, ResultItem, GeneWrapper, Gene, Keyword};
use crate::parse::{
    parse_gene, parse_genes, parse_keyword, parse_keywords, parse_strings, parse_wrapper,
    parse_wrappers, parse_item, parse_items, parse_response, parse_responses, parse_params,
    parse_envelope,
};

verus! {

proof fn lemma_lookup_hit(entries: Seq<(String, JsonValue)>, key: Seq<char>)
    requires
        entries.len() > 0,
        entries[0].0@ == key,
    ensures
        lookup(entries, key) == Some(entries[0].1),
{
}

proof fn lemma_lookup_skip(entries: Seq<(String, JsonValue)>, key: Seq<char>)
    requires
        entries.len() > 0,
        entries[0].0@ != key,
    ensures
        lookup(entries, key) == lookup(entries.drop_first(), key),
{
}

fn gene_to_json(g: &Gene) -> (j: JsonValue)
    ensures
        parse_gene(j) == Some(g@),
{
    let mut es: Vec<(String, JsonValue)> = Vec::new();
    es.push(("value".to_owned(), JsonValue::Str(g.value.clone())));
    proof {
        lemma_lookup_hit(es@, "value"@);
    }
    JsonValue::Obj(es)
}

fn genes_to_json(gs: &Vec<Gene>) -> (a: Vec<JsonValue>)
    ensures
        parse_genes(a@) == Some(gs@.map_values(|g: Gene| g@)),
{
    let mut out: Vec<JsonValue> = Vec::new();
    let mut i: usize = 0;
    while i < gs.len()
        invariant
            i <= gs@.len(),
            out@.len() == i as int,
            forall|k: int| 0 <= k < i ==> parse_gene(#[trigger] out@[k]) == Some(gs@[k]@),
        decreases gs@.len() - i,
    {
        let j = gene_to_json(&gs[i]);
        out.push(j);
        i += 1;
    }
    proof {
        assert(parse_genes(out@) is Some);
        assert(parse_genes(out@)->0 =~= gs@.map_values(|g: Gene| g@));
    }
    out
}

fn keyword_to_json(k: &Keyword) -> (j: JsonValue)
    ensures
        parse_keyword(j) == Some(k@),
{
    let mut es: Vec<(String, JsonValue)> = Vec::new();
    es.push(("value".to_owned(), JsonValue::Str(k.value.clone())));
    proof {
        lemma_lookup_hit(es@, "value"@);
    }
    JsonValue::Obj(es)
}

fn keywords_to_json(ks: &Vec<Keyword>) -> (a: Vec<JsonValue>)
    ensures
        parse_keywords(a@) == Some(ks@.map_values(|k: Keyword| k@)),
{
    let mut out: Vec<JsonValue> = Vec::new();
    let mut i: usize = 0;
    while i < ks.len()
        invariant
            i <= ks@.len(),
            out@.len() == i as int,
            forall|k: int| 0 <= k < i ==> parse_keyword(#[trigger] out@[k]) == Some(ks@[k]@),
        decreases ks@.len() - i,
    {
        let j = keyword_to_json(&ks[i]);
        out.push(j);
        i += 1;
    }
    proof {
        assert(parse_keywords(out@) is Some);
        assert(parse_keywords(out@)->0 =~= ks@.map_values(|k: Keyword| k@));
    }
    out
}

fn strings_to_json(ss: &Vec<String>) -> (a: Vec<JsonValue>)
    ensures
        parse_strings(a@) == Some(ss@.map_values(|s: String| s@)),
{
    let mut out: Vec<JsonValue> = Vec::new();
    let mut i: usize = 0;
    while i < ss.len()
        invariant
            i <= ss@.len(),
            out@.len() == i as int,
            forall|k: int| 0 <= k < i ==> crate::json::str_of(#[trigger] out@[k]) == Some(ss@[k]@),
        decreases ss@.len() - i,
    {
        let j = JsonValue::Str(ss[i].clone());
        out.push(j);
        i += 1;
    }
    proof {
        assert(parse_strings(out@) is Some);
        assert(parse_strings(out@)->0 =~= ss@.map_values(|s: String| s@));
    }
    out
}

fn wrapper_to_json(w: &GeneWrapper) -> (j: JsonValue)
    ensures
        parse_wrapper(j) == Some(w@),
{
    let genes = genes_to_json(&w.name);
    let mut es: Vec<(String, JsonValue)> = Vec::new();
    es.push(("name".to_owned(), JsonValue::Arr(genes)));
    proof {
        lemma_lookup_hit(es@, "name"@);
    }
    JsonValue::Obj(es)
}

fn wrappers_to_json(ws: &Vec<GeneWrapper>) -> (a: Vec<JsonValue>)
    ensures
        parse_wrappers(a@) == Some(ws@.map_values(|w: GeneWrapper| w@)),
{
    let mut out: Vec<JsonValue> = Vec::new();
    let mut i: usize = 0;
    while i < ws.len()
        invariant
            i <= ws@.len(),
            out@.len() == i as int,
            forall|k: int| 0 <= k < i ==> parse_wrapper(#[trigger] out@[k]) == Some(ws@[k]@),
        decreases ws@.len() - i,
    {
        let j = wrapper_to_json(&ws[i]);
        out.push(j);
        i += 1;
    }
    proof {
        assert(parse_wrappers(out@) is Some);
        assert(parse_wrappers(out@)->0 =~= ws@.map_values(|w: GeneWrapper| w@));
    }
    out
}

fn item_to_json(it: &ResultItem) -> (j: JsonValue)
    ensures
        parse_item(j) == Some(it@),
{
    let accession = strings_to_json(&it.accession);
    let gene = wrappers_to_json(&it.gene);
    let keyword = keywords_to_json(&it.keyword);
    let mut es: Vec<(String, JsonValue)> = Vec::new();
    es.push(("accession".to_owned(), JsonValue::Arr(accession)));
    es.push(("gene".to_owned(), JsonValue::Arr(gene)));
    es.push(("keyword".to_owned(), JsonValue::Arr(keyword)));
    proof {
        reveal_strlit("accession");
        reveal_strlit("gene");
        reveal_strlit("keyword");
        assert("accession"@.len() == 9 && "gene"@.len() == 4 && "keyword"@.len() == 7);
        lemma_lookup_hit(es@, "accession"@);
        lemma_lookup_skip(es@, "gene"@);
        lemma_lookup_hit(es@.drop_first(), "gene"@);
        lemma_lookup_skip(es@, "keyword"@);
        lemma_lookup_skip(es@.drop_first(), "keyword"@);
        lemma_lookup_hit(es@.drop_first().drop_first(), "keyword"@);
        assert(es@.drop_first()[0] == es@[1]);
        assert(es@.drop_first().drop_first()[0] == es@[2]);
    }
    JsonValue::Obj(es)
}

fn items_to_json(its: &Vec<ResultItem>) -> (a: Vec<JsonValue>)
    ensures
        parse_items(a@) == Some(its@.map_values(|it: ResultItem| it@)),
{
    let mut out: Vec<JsonValue> = Vec::new();
    let mut i: usize = 0;
    while i < its.len()
        invariant
            i <= its@.len(),
            out@.len() == i as int,
            forall|k: int| 0 <= k < i ==> parse_item(#[trigger] out@[k]) == Some(its@[k]@),
        decreases its@.len() - i,
    {
        let j = item_to_json(&its[i]);
        out.push(j);
        i += 1;
    }
    proof {
        assert(parse_items(out@) is Some);
        assert(parse_items(out@)->0 =~= its@.map_values(|it: ResultItem| it@));
    }
    out
}

fn response_to_json(resp: &Response) -> (j: JsonValue)
    ensures
        parse_response(j) == Some(resp@),
{
    let results = items_to_json(&resp.results);
    let mut es: Vec<(String, JsonValue)> = Vec::new();
    es.push(("time".to_owned(), JsonValue::Num(resp.time as u64)));
    es.push(("numResults".to_owned(), JsonValue::Num(resp.num_results as u64)));
    es.push(("results".to_owned(), JsonValue::Arr(results)));
    proof {
        reveal_strlit("time");
        reveal_strlit("numResults");
        reveal_strlit("results");
        assert("time"@.len() == 4 && "numResults"@.len() == 10 && "results"@.len() == 7);
        lemma_lookup_hit(es@, "time"@);
        lemma_lookup_skip(es@, "numResults"@);
        lemma_lookup_hit(es@.drop_first(), "numResults"@);
        lemma_lookup_skip(es@, "results"@);
        lemma_lookup_skip(es@.drop_first(), "results"@);
        lemma_lookup_hit(es@.drop_first().drop_first(), "results"@);
        assert(es@.drop_first()[0] == es@[1]);
        assert(es@.drop_first().drop_first()[0] == es@[2]);
    }
    JsonValue::Obj(es)
}

fn responses_to_json(rs: &Vec<Response>) -> (a: Vec<JsonValue>)
    ensures
        parse_responses(a@) == Some(rs@.map_values(|g: Response| g@)),
{
    let mut out: Vec<JsonValue> = Vec::new();
    let mut i: usize = 0;
    while i < rs.len()
        invariant
            i <= rs@.len(),
            out@.len() == i as int,
            forall|k: int| 0 <= k < i ==> parse_response(#[trigger] out@[k]) == Some(rs@[k]@),
        decreases rs@.len() - i,
    {
        let j = response_to_json(&rs[i]);
        out.push(j);
        i += 1;
    }
    proof {
        assert(parse_responses(out@) is Some);
        assert(parse_responses(out@)->0 =~= rs@.map_values(|g: Response| g@));
    }
    out
}

fn params_to_json(p: &Params) -> (j: JsonValue)
    ensures
        parse_params(j) == Some(p@),
{
    let mut es: Vec<(String, JsonValue)> = Vec::new();
    es.push(("species".to_owned(), JsonValue::Str(p.species.clone())));
    es.push(("limit".to_owned(), JsonValue::Str(p.limit.clone())));
    proof {
        reveal_strlit("species");
        reveal_strlit("limit");
        assert("species"@.len() == 7 && "limit"@.len() == 5);
        lemma_lookup_hit(es@, "species"@);
        lemma_lookup_skip(es@, "limit"@);
        lemma_lookup_hit(es@.drop_first(), "limit"@);
        assert(es@.drop_first()[0] == es@[1]);
    }
    JsonValue::Obj(es)
}

/// Serializes the envelope as a JSON value tree.
///
/// Round-trip law: the tree this builds deserializes back to exactly
/// the envelope it was built from — every field value and the order of
/// every sequence is preserved.
pub fn envelope_to_json(env: &ApiResponse) -> (j: JsonValue)
    ensures
        parse_envelope(j) == Some(env@),
{
    let params = params_to_json(&env.params);
    let responses = responses_to_json(&env.responses);
    let mut es: Vec<(String, JsonValue)> = Vec::new();
    es.push(("apiVersion".to_owned(), JsonValue::Str(env.api_version.clone())));
    es.push(("time".to_owned(), JsonValue::Num(env.time as u64)));
    es.push(("params".to_owned(), params));
    es.push(("responses".to_owned(), JsonValue::Arr(responses)));
    proof {
        reveal_strlit("apiVersion");
        reveal_strlit("time");
        reveal_strlit("params");
        reveal_strlit("responses");
        assert("apiVersion"@.len() == 10 && "time"@.len() == 4 && "params"@.len() == 6
            && "responses"@.len() == 9);
        lemma_lookup_hit(es@, "apiVersion"@);
        lemma_lookup_skip(es@, "time"@);
        lemma_lookup_hit(es@.drop_first(), "time"@);
        lemma_lookup_skip(es@, "params"@);
        lemma_lookup_skip(es@.drop_first(), "params"@);
        lemma_lookup_hit(es@.drop_first().drop_first(), "params"@);
        lemma_lookup_skip(es@, "responses"@);
        lemma_lookup_skip(es@.drop_first(), "responses"@);
        lemma_lookup_skip(es@.drop_first().drop_first(), "responses"@);
        lemma_lookup_hit(es@.drop_first().drop_first().drop_first(), "responses"@);
        assert(es@.drop_first()[0] == es@[1]);
        assert(es@.drop_first().drop_first()[0] == es@[2]);
        assert(es@.drop_first().drop_first().drop_first()[0] == es@[3]);
    }
    JsonValue::Obj(es)
}

} // verus!
