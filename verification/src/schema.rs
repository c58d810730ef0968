//! The entity tree of the service response, and its mathematical view.
//!
//! The wire payload is an envelope holding request parameters and an
//! ordered sequence of result groups; each group holds an ordered
//! sequence of result items; each item holds accession strings, gene
//! wrappers (each a list of gene name records) and keyword records.

use vstd::prelude::*;

verus! {

/// Top-level response envelope.
#[derive(Debug, PartialEq, Eq)]
pub struct ApiResponse {
    pub api_version: String,
    pub time: u32,
    pub params: Params,
    pub responses: Vec<Response>,
}

/// Request parameters echoed by the service.
#[derive(Debug, PartialEq, Eq)]
pub struct Params {
    pub species: String,
    pub limit: String,
}

/// One result group.  `num_results` is declared metadata only: it is
/// never checked against the length of `results`.
#[derive(Debug, PartialEq, Eq)]
pub struct Response {
    pub time: u32,
    pub num_results: u32,
    pub results: Vec<ResultItem>,
}

/// One result item.
#[derive(Debug, PartialEq, Eq)]
pub struct ResultItem {
    pub accession: Vec<String>,
    pub gene: Vec<GeneWrapper>,
    pub keyword: Vec<Keyword>,
}

/// A wrapper holding the gene name variants one item reports.
#[derive(Debug, Clone, PartialEq, Eq)]
pub struct GeneWrapper {
    pub name: Vec<Gene>,
}

/// One gene name record.
#[derive(Debug, Clone, PartialEq, Eq)]
pub struct Gene {
    pub value: String,
}

/// One keyword record.
#[derive(Debug, PartialEq, Eq)]
pub struct Keyword {
    pub value: String,
}

/// What can go wrong between receiving a payload and projecting it.
#[derive(Debug, PartialEq, Eq, Structural)]
pub enum AnnotationError {
    /// The network request could not be completed or did not succeed.
    TransportError,
    /// The payload does not conform to the envelope schema.
    SchemaMismatch,
    /// The response-group sequence is empty: there is no first group.
    EmptyResultSet,
}

#[verifier::ext_equal]
pub struct EnvelopeV {
    pub api_version: Seq<char>,
    pub time: int,
    pub params: ParamsV,
    pub responses: Seq<ResponseV>,
}

#[verifier::ext_equal]
pub struct ParamsV {
    pub species: Seq<char>,
    pub limit: Seq<char>,
}

#[verifier::ext_equal]
pub struct ResponseV {
    pub time: int,
    pub num_results: int,
    pub results: Seq<ResultItemV>,
}

#[verifier::ext_equal]
pub struct ResultItemV {
    pub accession: Seq<Seq<char>>,
    pub gene: Seq<Seq<Seq<char>>>,
    pub keyword: Seq<Seq<char>>,
}

impl View for Gene {
    type V = Seq<char>;

    open spec fn view(&self) -> Seq<char> {
        self.value@
    }
}

impl View for Keyword {
    type V = Seq<char>;

    open spec fn view(&self) -> Seq<char> {
        self.value@
    }
}

impl View for GeneWrapper {
    type V = Seq<Seq<char>>;

    open spec fn view(&self) -> Seq<Seq<char>> {
        self.name@.map_values(|g: Gene| g@)
    }
}

impl View for ResultItem {
    type V = ResultItemV;

    open spec fn view(&self) -> ResultItemV {
        ResultItemV {
            accession: self.accession@.map_values(|s: String| s@),
            gene: self.gene@.map_values(|w: GeneWrapper| w@),
            keyword: self.keyword@.map_values(|k: Keyword| k@),
        }
    }
}

impl View for Response {
    type V = ResponseV;

    open spec fn view(&self) -> ResponseV {
        ResponseV {
            time: self.time as int,
            num_results: self.num_results as int,
            results: self.results@.map_values(|it: ResultItem| it@),
        }
    }
}

impl View for Params {
    type V = ParamsV;

    open spec fn view(&self) -> ParamsV {
        ParamsV { species: self.species@, limit: self.limit@ }
    }
}

impl View for ApiResponse {
    type V = EnvelopeV;

    open spec fn view(&self) -> EnvelopeV {
        EnvelopeV {
            api_version: self.api_version@,
            time: self.time as int,
            params: self.params@,
            responses: self.responses@.map_values(|r: Response| r@),
        }
    }
}

} // verus!
