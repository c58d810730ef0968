//! Projection of one result item into a flattened annotation view.
//!
//! The view borrows every string from the item it was made from: the
//! accession sequence is referenced as a whole, and the gene and
//! keyword sequences hold references into the item's own records.

use vstd::prelude::*;
use crate::schema::{ResultItem, ResultItemV};

verus! {

/// A flattened, read-only view of one result item: its accession
/// sequence, all gene names across all wrappers in wrapper order then
/// within-wrapper order, and all keyword values in order.  Every field
/// borrows from the source item; nothing is copied.
#[derive(Debug)]
pub struct ProteinAnnotation<'a> {
    pub accession: &'a Vec<String>,
    pub gene: Vec<&'a String>,
    pub keyword: Vec<&'a String>,
}

#[verifier::ext_equal]
pub struct AnnotationV {
    pub accession: Seq<Seq<char>>,
    pub gene: Seq<Seq<char>>,
    pub keyword: Seq<Seq<char>>,
}

impl<'a> View for ProteinAnnotation<'a> {
    type V = AnnotationV;

    open spec fn view(&self) -> AnnotationV {
        AnnotationV {
            accession: self.accession.deep_view(),
            gene: self.gene.deep_view(),
            keyword: self.keyword.deep_view(),
        }
    }
}

/// What the projection means: the accession sequence unchanged, the
/// gene wrapper sequence flattened in order, the keyword sequence
/// unchanged.
pub open spec fn project_item(item: ResultItemV) -> AnnotationV {
    AnnotationV { accession: item.accession, gene: item.gene.flatten(), keyword: item.keyword }
}

/// Projects one result item into its annotation view.  The view's
/// three collections are references into the item's own data; the item
/// is never changed.
pub fn process_result_item<'a>(item: &'a ResultItem) -> (r: ProteinAnnotation<'a>)
    ensures
        r@ == project_item(item@),
{
    let mut gene_values: Vec<&'a String> = Vec::new();
    let mut w: usize = 0;
    proof {
        assert(item@.gene.take(0) =~= Seq::<Seq<Seq<char>>>::empty());
        assert(gene_values.deep_view() =~= item@.gene.take(0).flatten());
    }
    while w < item.gene.len()
        invariant
            w <= item.gene@.len(),
            item.gene@.len() == item@.gene.len(),
            gene_values.deep_view() == item@.gene.take(w as int).flatten(),
        decreases item.gene@.len() - w,
    {
        let wrapper = &item.gene[w];
        let mut g: usize = 0;
        proof {
            assert(wrapper@.take(0) =~= Seq::<Seq<char>>::empty());
            assert(gene_values.deep_view() + wrapper@.take(0) =~= gene_values.deep_view());
        }
        let ghost before = gene_values.deep_view();
        while g < wrapper.name.len()
            invariant
                g <= wrapper.name@.len(),
                w < item.gene@.len(),
                item.gene@.len() == item@.gene.len(),
                wrapper@ == item@.gene[w as int],
                wrapper.name@.len() == wrapper@.len(),
                before == item@.gene.take(w as int).flatten(),
                gene_values.deep_view() == before + wrapper@.take(g as int),
            decreases wrapper.name@.len() - g,
        {
            let ghost old_dv = gene_values.deep_view();
            gene_values.push(&wrapper.name[g].value);
            proof {
                assert(gene_values.deep_view() =~= old_dv.push(wrapper.name@[g as int].value@));
                assert(wrapper@[g as int] == wrapper.name@[g as int]@);
                assert(wrapper@.take(g as int).push(wrapper@[g as int]) =~= wrapper@.take(
                    g as int + 1,
                ));
                assert((before + wrapper@.take(g as int)).push(wrapper@[g as int]) =~= before
                    + wrapper@.take(g as int + 1));
            }
            g += 1;
        }
        proof {
            broadcast use Seq::lemma_flatten_push;

            assert(wrapper@.take(g as int) =~= wrapper@);
            assert(item@.gene.take(w as int).push(item@.gene[w as int]) =~= item@.gene.take(
                w as int + 1,
            ));
            assert(gene_values.deep_view() =~= item@.gene.take(w as int + 1).flatten());
        }
        w += 1;
    }
    let mut kwds: Vec<&'a String> = Vec::new();
    let mut i: usize = 0;
    proof {
        assert(kwds.deep_view() =~= item@.keyword.take(0));
    }
    while i < item.keyword.len()
        invariant
            i <= item.keyword@.len(),
            item.keyword@.len() == item@.keyword.len(),
            kwds.deep_view() == item@.keyword.take(i as int),
        decreases item.keyword@.len() - i,
    {
        let ghost old_dv = kwds.deep_view();
        kwds.push(&item.keyword[i].value);
        proof {
            assert(kwds.deep_view() =~= old_dv.push(item.keyword@[i as int].value@));
            assert(item@.keyword.take(i as int).push(item@.keyword[i as int]) =~= item@.keyword.take(
                i as int + 1,
            ));
        }
        i += 1;
    }
    let r = ProteinAnnotation { accession: &item.accession, gene: gene_values, keyword: kwds };
    proof {
        assert(item@.gene.take(item@.gene.len() as int) =~= item@.gene);
        assert(item@.keyword.take(item@.keyword.len() as int) =~= item@.keyword);
        assert(r.accession.deep_view() =~= item@.accession);
        assert(r@ =~= project_item(item@));
    }
    r
}

/// Projects every item of a result sequence, one annotation view per
/// item, preserving input order.
pub fn process_result_items<'a>(items: &'a Vec<ResultItem>) -> (r: Vec<ProteinAnnotation<'a>>)
    ensures
        r@.len() == items@.len(),
        forall|i: int| 0 <= i < items@.len() ==> #[trigger] r@[i]@ == project_item(items@[i]@),
{
    let mut out: Vec<ProteinAnnotation<'a>> = Vec::new();
    let mut i: usize = 0;
    while i < items.len()
        invariant
            i <= items@.len(),
            out@.len() == i as int,
            forall|k: int| 0 <= k < i ==> #[trigger] out@[k]@ == project_item(items@[k]@),
        decreases items@.len() - i,
    {
        let ann = process_result_item(&items[i]);
        out.push(ann);
        i += 1;
    }
    out
}

/// The count of gene names an item's wrapper sequence reports: the sum
/// of each wrapper's gene-sequence length.
pub open spec fn gene_total(gs: Seq<Seq<Seq<char>>>) -> nat
    decreases gs.len(),
{
    if gs.len() == 0 {
        0
    } else {
        gs.first().len() + gene_total(gs.drop_first())
    }
}

proof fn lemma_flatten_len(gs: Seq<Seq<Seq<char>>>)
    ensures
        gs.flatten().len() == gene_total(gs),
    decreases gs.len(),
{
    if gs.len() > 0 {
        lemma_flatten_len(gs.drop_first());
    }
}

/// Law: an item with no gene wrappers projects to an empty gene
/// sequence.
pub proof fn lemma_project_no_wrappers(item: ResultItemV)
    requires
        item.gene.len() == 0,
    ensures
        project_item(item).gene.len() == 0,
{
}

/// Law: the projected gene sequence is exactly as long as the sum of
/// the item's per-wrapper gene-sequence lengths.
pub proof fn lemma_project_gene_count(item: ResultItemV)
    ensures
        project_item(item).gene.len() == gene_total(item.gene),
{
    lemma_flatten_len(item.gene);
}

proof fn lemma_flatten_index(gs: Seq<Seq<Seq<char>>>, w: int, g: int)
    requires
        0 <= w < gs.len(),
        0 <= g < gs[w].len(),
    ensures
        gene_total(gs.take(w)) + g < gs.flatten().len(),
        gs.flatten()[gene_total(gs.take(w)) + g] == gs[w][g],
    decreases w,
{
    lemma_flatten_len(gs);
    if w == 0 {
        assert(gs.take(0) =~= Seq::<Seq<Seq<char>>>::empty());
        assert(gs.flatten() == gs.first().add(gs.drop_first().flatten()));
    } else {
        lemma_flatten_index(gs.drop_first(), w - 1, g);
        assert(gs.take(w).drop_first() =~= gs.drop_first().take(w - 1));
        assert(gs.take(w).len() > 0);
        assert(gs.take(w).first() == gs.first());
        assert(gs.flatten() == gs.first().add(gs.drop_first().flatten()));
        assert(gs.drop_first()[w - 1] == gs[w]);
    }
}

/// Law: the projected gene order is wrapper order then within-wrapper
/// order — the name at position `g` of wrapper `w` lands at the offset
/// given by the total gene count of the wrappers before `w`, plus `g`.
pub proof fn lemma_project_gene_order(item: ResultItemV, w: int, g: int)
    requires
        0 <= w < item.gene.len(),
        0 <= g < item.gene[w].len(),
    ensures
        gene_total(item.gene.take(w)) + g < project_item(item).gene.len(),
        project_item(item).gene[gene_total(item.gene.take(w)) + g] == item.gene[w][g],
{
    lemma_flatten_index(item.gene, w, g);
}

} // verus!
