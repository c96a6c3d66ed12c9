//! Properties of the billing service's checkout form.

use vstd::prelude::*;
use crate::billing::checkout::{checkout_form_of, CheckoutRequestView};

verus! {

/// Whether no two fields of a form have the same name.
pub open spec fn distinct_names(form: Seq<(Seq<char>, Seq<char>)>) -> bool {
    forall|i: int, j: int| 0 <= i < form.len() && 0 <= j < form.len() && #[trigger] form[i].0 == #[trigger] form[j].0 ==> i == j
}

/// The checkout session is made for the requested tenant: the form names each field once,
/// asks for a subscription of one unit of the plan's price, pre-fills the customer's email
/// with the requested email, and names the tenant as client reference and, with its plan,
/// in the metadata that comes back with the webhook; the return URLs are those given.
pub proof fn law_checkout_form_for_request(req: CheckoutRequestView, price_id: Seq<char>, success: Seq<char>, cancel: Seq<char>)
    ensures
        ({
            let f = checkout_form_of(req, price_id, success, cancel);
            &&& distinct_names(f)
            &&& f.contains(("mode"@, "subscription"@))
            &&& f.contains(("success_url"@, success))
            &&& f.contains(("cancel_url"@, cancel))
            &&& f.contains(("customer_email"@, req.email))
            &&& f.contains(("client_reference_id"@, req.tenant_id))
            &&& f.contains(("line_items[0][price]"@, price_id))
            &&& f.contains(("line_items[0][quantity]"@, "1"@))
            &&& f.contains(("metadata[tenant_id]"@, req.tenant_id))
            &&& f.contains(("metadata[plan]"@, req.plan))
        }),
{
    let f = checkout_form_of(req, price_id, success, cancel);
    reveal_strlit("mode");
    reveal_strlit("success_url");
    reveal_strlit("cancel_url");
    reveal_strlit("customer_email");
    reveal_strlit("client_reference_id");
    reveal_strlit("line_items[0][price]");
    reveal_strlit("line_items[0][quantity]");
    reveal_strlit("metadata[tenant_id]");
    reveal_strlit("metadata[plan]");
    assert(f[0].0[0] == 'm' && f[0].0.len() == 4);
    assert(f[1].0.len() == 11);
    assert(f[2].0.len() == 10);
    assert(f[3].0[0] == 'c' && f[3].0.len() == 14);
    assert(f[4].0[0] == 'c' && f[4].0.len() == 19);
    assert(f[5].0.len() == 20);
    assert(f[6].0.len() == 23);
    assert(f[7].0[0] == 'm' && f[7].0.len() == 19);
    assert(f[8].0[0] == 'm' && f[8].0.len() == 14);
    assert forall|i: int, j: int| 0 <= i < f.len() && 0 <= j < f.len() && #[trigger] f[i].0 == #[trigger] f[j].0 implies i == j by {
        if i != j {
            assert(f[i].0.len() == f[j].0.len());
            assert(f[i].0[0] == f[j].0[0]);
        }
    }
    assert(f[0] == ("mode"@, "subscription"@));
    assert(f[1] == ("success_url"@, success));
    assert(f[2] == ("cancel_url"@, cancel));
    assert(f[3] == ("customer_email"@, req.email));
    assert(f[4] == ("client_reference_id"@, req.tenant_id));
    assert(f[5] == ("line_items[0][price]"@, price_id));
    assert(f[6] == ("line_items[0][quantity]"@, "1"@));
    assert(f[7] == ("metadata[tenant_id]"@, req.tenant_id));
    assert(f[8] == ("metadata[plan]"@, req.plan));
}

} // verus!
