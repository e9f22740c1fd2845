//! Certificate selection: the pure, membership-only filter that narrows the
//! configured certificate list before a run.

use vstd::prelude::*;
use crate::model::{cert_selected, cert_views, name_views, selected_spec, CertView, Certificate};

verus! {

/// Whether `name` occurs in `filter`.
fn name_in_filter(name: &String, filter: &Vec<String>) -> (r: bool)
    ensures
        r == name_views(filter@).contains(name@),
{
    let mut i: usize = 0;
    while i < filter.len()
        invariant
            i <= filter.len(),
            forall|j: int| 0 <= j < i ==> name_views(filter@)[j] != name@,
        decreases filter.len() - i,
    {
        if filter[i].eq(name) {
            assert(name_views(filter@)[i as int] == name@);
            return true;
        }
        i += 1;
    }
    assert(!name_views(filter@).contains(name@));
    false
}

/// Narrows `certs` to those the filter selects, keeping their original
/// relative order. An empty filter selects every certificate; filter names
/// that match no certificate are silently ignored. Selection is by name
/// membership alone and touches nothing else.
pub fn filter_certs(certs: Vec<Certificate>, filter: &Vec<String>) -> (selected: Vec<Certificate>)
    ensures
        cert_views(selected@) == selected_spec(cert_views(certs@), name_views(filter@)),
{
    let ghost all = cert_views(certs@);
    let ghost fv = name_views(filter@);
    let mut remaining = certs;
    let mut selected: Vec<Certificate> = Vec::new();
    proof {
        assert(cert_views(selected@) + selected_spec(cert_views(remaining@), fv) =~= selected_spec(
            all,
            fv,
        ));
    }
    while remaining.len() > 0
        invariant
            fv == name_views(filter@),
            selected_spec(all, fv) == cert_views(selected@) + selected_spec(
                cert_views(remaining@),
                fv,
            ),
        decreases remaining.len(),
    {
        let ghost before = cert_views(remaining@);
        let ghost sel_before = cert_views(selected@);
        let c = remaining.remove(0);
        proof {
            assert(before[0] == c@);
            assert(cert_views(remaining@) =~= before.drop_first());
        }
        let keep = filter.len() == 0 || name_in_filter(&c.name, filter);
        proof {
            assert(keep == cert_selected(c@, fv));
        }
        if keep {
            selected.push(c);
            proof {
                assert(cert_views(selected@) =~= sel_before.push(c@));
                assert(sel_before.push(c@) + selected_spec(before.drop_first(), fv) =~= sel_before
                    + (seq![c@] + selected_spec(before.drop_first(), fv)));
            }
        }
    }
    proof {
        assert(cert_views(remaining@) =~= Seq::<CertView>::empty());
        assert(cert_views(selected@) + selected_spec(cert_views(remaining@), fv) =~= cert_views(
            selected@,
        ));
    }
    selected
}

/// An empty filter selects every certificate, in their original order.
pub proof fn lemma_empty_filter_selects_all(certs: Seq<CertView>)
    ensures
        selected_spec(certs, Seq::<Seq<char>>::empty()) == certs,
    decreases certs.len(),
{
    if certs.len() == 0 {
        assert(selected_spec(certs, Seq::<Seq<char>>::empty()) =~= certs);
    } else {
        lemma_empty_filter_selects_all(certs.drop_first());
        assert(selected_spec(certs, Seq::<Seq<char>>::empty()) =~= certs);
    }
}

/// A non-empty filter that names no certificate selects nothing; an unknown
/// name is not an error.
pub proof fn lemma_unmatched_filter_selects_none(certs: Seq<CertView>, filter: Seq<Seq<char>>)
    requires
        filter.len() > 0,
        forall|i: int| 0 <= i < certs.len() ==> !filter.contains(#[trigger] certs[i].name),
    ensures
        selected_spec(certs, filter) == Seq::<CertView>::empty(),
    decreases certs.len(),
{
    if certs.len() == 0 {
        assert(selected_spec(certs, filter) =~= Seq::<CertView>::empty());
    } else {
        assert(!cert_selected(certs[0], filter));
        assert forall|i: int| 0 <= i < certs.drop_first().len() implies !filter.contains(
            #[trigger] certs.drop_first()[i].name,
        ) by {
            assert(certs.drop_first()[i] == certs[i + 1]);
        }
        lemma_unmatched_filter_selects_none(certs.drop_first(), filter);
    }
}

} // verus!
