//! The item-by-item part of receipt validation: the receipt counts each final input item exactly
//! once and nothing else, and its counts add up to the authoritative total.

#[allow(unused_imports)]
use super::types;
use super::types::ProviderRequestAttributionError;
use super::types::ProviderRequestAttributionErrorView;
use super::types::ProviderTerminalInputItem;
use super::types::ProviderTerminalInputItemView;
use super::types::ResponseItem;
use vstd::hash_set::StringHashSet;
use vstd::prelude::*;

verus! {

/// One of the first `n` final items has the identifier `id`.
pub open spec fn listed(ids: Seq<Option<Seq<char>>>, n: int, id: Seq<char>) -> bool {
    exists|j: int| 0 <= j < n && #[trigger] ids[j] == Some(id)
}

/// One of the first `n` receipt items has the identifier `id`.
pub open spec fn receipted(items: Seq<ProviderTerminalInputItemView>, n: int, id: Seq<char>) -> bool {
    exists|j: int| 0 <= j < n && (#[trigger] items[j]).item_id == id
}

/// The tokens of the first `n` receipt items together.
pub open spec fn token_sum(items: Seq<ProviderTerminalInputItemView>, n: int) -> int
    decreases n,
{
    if n <= 0 {
        0
    } else {
        token_sum(items, n - 1) + items[n - 1].input_tokens
    }
}

/// The first fault among the first `n` final items: one without an identifier, or one whose
/// identifier an earlier item has too.
pub open spec fn final_items_fault(ids: Seq<Option<Seq<char>>>, n: int) -> Option<
    ProviderRequestAttributionErrorView,
>
    decreases n,
{
    if n <= 0 {
        None
    } else {
        match final_items_fault(ids, n - 1) {
            Some(fault) => Some(fault),
            None => match ids[n - 1] {
                None => Some(
                    ProviderRequestAttributionErrorView::MissingFinalInputItemId {
                        index: (n - 1) as usize,
                    },
                ),
                Some(id) => if listed(ids, n - 1, id) {
                    Some(
                        ProviderRequestAttributionErrorView::DuplicateFinalInputItemId {
                            item_id: id,
                        },
                    )
                } else {
                    None
                },
            },
        }
    }
}

/// The first fault among the first `n` receipt items: an empty identifier, one that an earlier
/// receipt item has too, one that no final item has, or a token sum beyond the counter.
pub open spec fn receipt_items_fault(
    ids: Seq<Option<Seq<char>>>,
    items: Seq<ProviderTerminalInputItemView>,
    n: int,
) -> Option<ProviderRequestAttributionErrorView>
    decreases n,
{
    if n <= 0 {
        None
    } else {
        match receipt_items_fault(ids, items, n - 1) {
            Some(fault) => Some(fault),
            None => {
                let item_id = items[n - 1].item_id;
                if item_id.len() == 0 {
                    Some(ProviderRequestAttributionErrorView::MissingReceiptInputItemId { item_id })
                } else if receipted(items, n - 1, item_id) {
                    Some(
                        ProviderRequestAttributionErrorView::DuplicateReceiptInputItemId { item_id },
                    )
                } else if !listed(ids, ids.len() as int, item_id) {
                    Some(ProviderRequestAttributionErrorView::ExtraReceiptInputItemId { item_id })
                } else if token_sum(items, n) > u64::MAX {
                    Some(ProviderRequestAttributionErrorView::InputTokenSumOverflow)
                } else {
                    None
                }
            },
        }
    }
}

/// The identifier of the first of the first `n` final items that the receipt does not count.
pub open spec fn first_uncounted(
    ids: Seq<Option<Seq<char>>>,
    items: Seq<ProviderTerminalInputItemView>,
    n: int,
) -> Option<Seq<char>>
    decreases n,
{
    if n <= 0 {
        None
    } else {
        match first_uncounted(ids, items, n - 1) {
            Some(id) => Some(id),
            None => match ids[n - 1] {
                Some(id) => if receipted(items, items.len() as int, id) {
                    None
                } else {
                    Some(id)
                },
                None => None,
            },
        }
    }
}

/// Why a receipt's items do not account for the final items, if they do not.
pub open spec fn items_fault(
    ids: Seq<Option<Seq<char>>>,
    items: Seq<ProviderTerminalInputItemView>,
    authoritative_input_tokens: u64,
) -> Option<ProviderRequestAttributionErrorView> {
    match final_items_fault(ids, ids.len() as int) {
        Some(fault) => Some(fault),
        None => match receipt_items_fault(ids, items, items.len() as int) {
            Some(fault) => Some(fault),
            None => match first_uncounted(ids, items, ids.len() as int) {
                Some(item_id) => Some(
                    ProviderRequestAttributionErrorView::MissingReceiptInputItemId { item_id },
                ),
                None => {
                    let sum = token_sum(items, items.len() as int);
                    if sum != authoritative_input_tokens {
                        Some(
                            ProviderRequestAttributionErrorView::AggregateInputTokensMismatch {
                                expected: authoritative_input_tokens,
                                actual: sum as u64,
                            },
                        )
                    } else {
                        None
                    }
                },
            },
        },
    }
}

/// The receipt counts each final item exactly once and nothing else: every final item has an
/// identifier, no two have the same, and the receipt items carry exactly those identifiers, none
/// of them empty and none of them twice.
pub open spec fn exact_bijection(
    ids: Seq<Option<Seq<char>>>,
    items: Seq<ProviderTerminalInputItemView>,
) -> bool {
    &&& forall|i: int| 0 <= i < ids.len() ==> (#[trigger] ids[i]) is Some
    &&& forall|i: int, j: int| 0 <= i < j < ids.len() ==> #[trigger] ids[i] != #[trigger] ids[j]
    &&& forall|i: int| 0 <= i < items.len() ==> (#[trigger] items[i]).item_id.len() > 0
    &&& forall|i: int, j: int|
        0 <= i < j < items.len() ==> (#[trigger] items[i]).item_id != (
        #[trigger] items[j]).item_id
    &&& forall|id: Seq<char>| #[trigger]
        listed(ids, ids.len() as int, id) <==> receipted(items, items.len() as int, id)
}

proof fn lemma_final_items(ids: Seq<Option<Seq<char>>>, n: int)
    requires
        0 <= n <= ids.len(),
    ensures
        final_items_fault(ids, n) is None <==> {
            &&& forall|i: int| 0 <= i < n ==> (#[trigger] ids[i]) is Some
            &&& forall|i: int, j: int| 0 <= i < j < n ==> #[trigger] ids[i] != #[trigger] ids[j]
        },
    decreases n,
{
    if n > 0 {
        lemma_final_items(ids, n - 1);
        if final_items_fault(ids, n) is None {
            assert forall|i: int, j: int| 0 <= i < j < n implies #[trigger] ids[i]
                != #[trigger] ids[j] by {
                if j == n - 1 {
                    assert(!listed(ids, n - 1, ids[n - 1]->0));
                }
            }
        }
    }
}

proof fn lemma_token_sum_grows(items: Seq<ProviderTerminalInputItemView>, n: int, m: int)
    requires
        0 <= n <= m <= items.len(),
    ensures
        0 <= token_sum(items, n) <= token_sum(items, m),
    decreases m,
{
    if m > 0 {
        if n < m {
            lemma_token_sum_grows(items, n, m - 1);
        } else {
            lemma_token_sum_grows(items, n - 1, m - 1);
        }
    }
}

proof fn lemma_receipt_items(
    ids: Seq<Option<Seq<char>>>,
    items: Seq<ProviderTerminalInputItemView>,
    n: int,
)
    requires
        0 <= n <= items.len(),
    ensures
        receipt_items_fault(ids, items, n) is None <==> {
            &&& forall|i: int| 0 <= i < n ==> (#[trigger] items[i]).item_id.len() > 0
            &&& forall|i: int, j: int|
                0 <= i < j < n ==> (#[trigger] items[i]).item_id != (#[trigger] items[j]).item_id
            &&& forall|i: int|
                0 <= i < n ==> listed(ids, ids.len() as int, (#[trigger] items[i]).item_id)
            &&& token_sum(items, n) <= u64::MAX
        },
    decreases n,
{
    if n > 0 {
        lemma_receipt_items(ids, items, n - 1);
        lemma_token_sum_grows(items, n - 1, n);
        if receipt_items_fault(ids, items, n) is None {
            assert forall|i: int, j: int| 0 <= i < j < n implies (#[trigger] items[i]).item_id != (
            #[trigger] items[j]).item_id by {
                if j == n - 1 {
                    assert(!receipted(items, n - 1, items[n - 1].item_id));
                }
            }
        }
    }
}

proof fn lemma_uncounted(
    ids: Seq<Option<Seq<char>>>,
    items: Seq<ProviderTerminalInputItemView>,
    n: int,
)
    requires
        0 <= n <= ids.len(),
    ensures
        first_uncounted(ids, items, n) is None <==> forall|i: int|
            0 <= i < n ==> (#[trigger] ids[i] matches Some(id) ==> receipted(
                items,
                items.len() as int,
                id,
            )),
    decreases n,
{
    if n > 0 {
        lemma_uncounted(ids, items, n - 1);
    }
}

/// A receipt's items are accepted exactly when they account for the final items one to one and
/// their counts add up to the authoritative total.
pub proof fn law_items_accepted_exactly_as_bijection(
    ids: Seq<Option<Seq<char>>>,
    items: Seq<ProviderTerminalInputItemView>,
    authoritative_input_tokens: u64,
)
    ensures
        items_fault(ids, items, authoritative_input_tokens) is None <==> {
            &&& exact_bijection(ids, items)
            &&& token_sum(items, items.len() as int) == authoritative_input_tokens
        },
{
    let n = ids.len() as int;
    let m = items.len() as int;
    lemma_final_items(ids, n);
    lemma_receipt_items(ids, items, m);
    lemma_uncounted(ids, items, n);
    if items_fault(ids, items, authoritative_input_tokens) is None {
        assert forall|id: Seq<char>| #[trigger] listed(ids, n, id) <==> receipted(items, m, id) by {
            if receipted(items, m, id) {
                let j = choose|j: int| 0 <= j < m && (#[trigger] items[j]).item_id == id;
                assert(listed(ids, n, items[j].item_id));
            }
        }
    }
    if exact_bijection(ids, items) {
        assert forall|i: int| 0 <= i < m implies listed(ids, n, (#[trigger] items[i]).item_id) by {
            assert(receipted(items, m, items[i].item_id));
        }
        assert forall|i: int| 0 <= i < n implies (#[trigger] ids[i] matches Some(id) ==> receipted(
            items,
            m,
            id,
        )) by {
            assert(listed(ids, n, ids[i]->0));
        }
    }
}

/// Checks that every final item has an identifier of its own, and collects the identifiers.
fn collect_final_ids(input: &Vec<ResponseItem>) -> (result: Result<
    StringHashSet,
    ProviderRequestAttributionError,
>)
    ensures
        match result {
            Ok(set) => {
                let ids = types::item_ids(types::item_views(input@));
                &&& final_items_fault(ids, ids.len() as int) is None
                &&& forall|id: Seq<char>| #[trigger]
                    set@.contains(id) <==> listed(ids, ids.len() as int, id)
            },
            Err(error) => {
                let ids = types::item_ids(types::item_views(input@));
                final_items_fault(ids, ids.len() as int) == Some(error@)
            },
        },
{
    let ghost ids = types::item_ids(types::item_views(input@));
    let mut seen = StringHashSet::new();
    let mut index: usize = 0;
    while index < input.len()
        invariant
            ids == types::item_ids(types::item_views(input@)),
            ids.len() == input@.len(),
            index <= input@.len(),
            final_items_fault(ids, index as int) is None,
            forall|id: Seq<char>| #[trigger]
                seen@.contains(id) <==> listed(ids, index as int, id),
        decreases input@.len() - index,
    {
        proof {
            assert(ids[index as int] == input@[index as int]@.id);
        }
        let ghost before = seen@;
        match &input[index].id {
            None => {
                proof {
                    lemma_fault_stays(ids, index + 1, ids.len() as int);
                }
                return Err(ProviderRequestAttributionError::MissingFinalInputItemId { index });
            },
            Some(item_id) => {
                if !seen.insert(item_id.clone()) {
                    proof {
                        lemma_fault_stays(ids, index + 1, ids.len() as int);
                    }
                    return Err(
                        ProviderRequestAttributionError::DuplicateFinalInputItemId {
                            item_id: item_id.clone(),
                        },
                    );
                }
                proof {
                    assert forall|id: Seq<char>| #[trigger]
                        seen@.contains(id) <==> listed(ids, index + 1, id) by {
                        if id == item_id@ {
                            assert(ids[index as int] == Some(id));
                        }
                        if listed(ids, index as int, id) {
                            let j = choose|j: int|
                                0 <= j < index && #[trigger] ids[j] == Some(id);
                            assert(ids[j] == Some(id));
                        }
                        assert(before.contains(id) <==> listed(ids, index as int, id));
                    }
                }
            },
        }
        index += 1;
    }
    Ok(seen)
}

proof fn lemma_fault_stays(ids: Seq<Option<Seq<char>>>, n: int, m: int)
    requires
        0 <= n <= m,
        final_items_fault(ids, n) is Some,
    ensures
        final_items_fault(ids, m) == final_items_fault(ids, n),
    decreases m,
{
    if n < m {
        lemma_fault_stays(ids, n, m - 1);
    }
}

proof fn lemma_receipt_fault_stays(
    ids: Seq<Option<Seq<char>>>,
    items: Seq<ProviderTerminalInputItemView>,
    n: int,
    m: int,
)
    requires
        0 <= n <= m,
        receipt_items_fault(ids, items, n) is Some,
    ensures
        receipt_items_fault(ids, items, m) == receipt_items_fault(ids, items, n),
    decreases m,
{
    if n < m {
        lemma_receipt_fault_stays(ids, items, n, m - 1);
    }
}

/// Checks the receipt items one by one, and collects their identifiers and their token sum.
fn collect_receipt_ids(
    final_ids: &StringHashSet,
    items: &Vec<ProviderTerminalInputItem>,
    Ghost(ids): Ghost<Seq<Option<Seq<char>>>>,
) -> (result: Result<(StringHashSet, u64), ProviderRequestAttributionError>)
    requires
        forall|id: Seq<char>| #[trigger]
            final_ids@.contains(id) <==> listed(ids, ids.len() as int, id),
    ensures
        match result {
            Ok((set, sum)) => {
                let views = types::input_item_views(items@);
                &&& receipt_items_fault(ids, views, views.len() as int) is None
                &&& forall|id: Seq<char>| #[trigger]
                    set@.contains(id) <==> receipted(views, views.len() as int, id)
                &&& sum == token_sum(views, views.len() as int)
            },
            Err(error) => {
                let views = types::input_item_views(items@);
                receipt_items_fault(ids, views, views.len() as int) == Some(error@)
            },
        },
{
    let ghost views = types::input_item_views(items@);
    let mut seen = StringHashSet::new();
    let mut sum: u64 = 0;
    let mut i: usize = 0;
    while i < items.len()
        invariant
            forall|id: Seq<char>| #[trigger]
                final_ids@.contains(id) <==> listed(ids, ids.len() as int, id),
            views == types::input_item_views(items@),
            views.len() == items@.len(),
            i <= items@.len(),
            receipt_items_fault(ids, views, i as int) is None,
            forall|id: Seq<char>| #[trigger]
                seen@.contains(id) <==> receipted(views, i as int, id),
            sum == token_sum(views, i as int),
        decreases items@.len() - i,
    {
        let item = &items[i];
        let ghost before = seen@;
        proof {
            assert(views[i as int] == item@);
        }
        if item.item_id.as_str().is_empty() {
            proof {
                lemma_receipt_fault_stays(ids, views, i + 1, views.len() as int);
            }
            return Err(
                ProviderRequestAttributionError::MissingReceiptInputItemId {
                    item_id: item.item_id.clone(),
                },
            );
        }
        if !seen.insert(item.item_id.clone()) {
            proof {
                lemma_receipt_fault_stays(ids, views, i + 1, views.len() as int);
            }
            return Err(
                ProviderRequestAttributionError::DuplicateReceiptInputItemId {
                    item_id: item.item_id.clone(),
                },
            );
        }
        if !final_ids.contains(item.item_id.as_str()) {
            proof {
                lemma_receipt_fault_stays(ids, views, i + 1, views.len() as int);
            }
            return Err(
                ProviderRequestAttributionError::ExtraReceiptInputItemId {
                    item_id: item.item_id.clone(),
                },
            );
        }
        match sum.checked_add(item.input_tokens) {
            Some(total) => {
                sum = total;
            },
            None => {
                proof {
                    lemma_receipt_fault_stays(ids, views, i + 1, views.len() as int);
                }
                return Err(ProviderRequestAttributionError::InputTokenSumOverflow);
            },
        }
        proof {
            assert forall|id: Seq<char>| #[trigger]
                seen@.contains(id) <==> receipted(views, i + 1, id) by {
                if id == item.item_id@ {
                    assert(views[i as int].item_id == id);
                }
                if receipted(views, i as int, id) {
                    let j = choose|j: int| 0 <= j < i && (#[trigger] views[j]).item_id == id;
                    assert(views[j].item_id == id);
                }
                assert(before.contains(id) <==> receipted(views, i as int, id));
            }
        }
        i += 1;
    }
    Ok((seen, sum))
}

/// Finds the first final item that the receipt does not count.
fn find_uncounted(
    input: &Vec<ResponseItem>,
    receipt_ids: &StringHashSet,
    Ghost(items): Ghost<Seq<ProviderTerminalInputItemView>>,
) -> (uncounted: Option<String>)
    requires
        forall|id: Seq<char>| #[trigger]
            receipt_ids@.contains(id) <==> receipted(items, items.len() as int, id),
    ensures
        ({
            let ids = types::item_ids(types::item_views(input@));
            match uncounted {
                Some(id) => first_uncounted(ids, items, ids.len() as int) == Some(id@),
                None => first_uncounted(ids, items, ids.len() as int) is None,
            }
        }),
{
    let ghost ids = types::item_ids(types::item_views(input@));
    let mut i: usize = 0;
    while i < input.len()
        invariant
            forall|id: Seq<char>| #[trigger]
                receipt_ids@.contains(id) <==> receipted(items, items.len() as int, id),
            ids == types::item_ids(types::item_views(input@)),
            ids.len() == input@.len(),
            i <= input@.len(),
            first_uncounted(ids, items, i as int) is None,
        decreases input@.len() - i,
    {
        proof {
            assert(ids[i as int] == input@[i as int]@.id);
        }
        if let Some(item_id) = &input[i].id {
            if !receipt_ids.contains(item_id.as_str()) {
                proof {
                    lemma_uncounted_stays(ids, items, i + 1, ids.len() as int);
                }
                return Some(item_id.clone());
            }
        }
        i += 1;
    }
    None
}

proof fn lemma_uncounted_stays(
    ids: Seq<Option<Seq<char>>>,
    items: Seq<ProviderTerminalInputItemView>,
    n: int,
    m: int,
)
    requires
        0 <= n <= m,
        first_uncounted(ids, items, n) is Some,
    ensures
        first_uncounted(ids, items, m) == first_uncounted(ids, items, n),
    decreases m,
{
    if n < m {
        lemma_uncounted_stays(ids, items, n, m - 1);
    }
}

/// Checks that the receipt items account for the final items one to one and add up to the
/// authoritative total.
pub fn check_input_items(
    input: &Vec<ResponseItem>,
    items: &Vec<ProviderTerminalInputItem>,
    authoritative_input_tokens: u64,
) -> (result: Result<(), ProviderRequestAttributionError>)
    ensures
        ({
            let fault = items_fault(
                types::item_ids(types::item_views(input@)),
                types::input_item_views(items@),
                authoritative_input_tokens,
            );
            match result {
                Ok(()) => fault is None,
                Err(error) => fault == Some(error@),
            }
        }),
{
    let ghost ids = types::item_ids(types::item_views(input@));
    let final_ids = match collect_final_ids(input) {
        Ok(set) => set,
        Err(error) => {
            return Err(error);
        },
    };
    let (receipt_ids, sum) = match collect_receipt_ids(&final_ids, items, Ghost(ids)) {
        Ok(collected) => collected,
        Err(error) => {
            return Err(error);
        },
    };
    if let Some(item_id) = find_uncounted(input, &receipt_ids, Ghost(types::input_item_views(items@))) {
        return Err(ProviderRequestAttributionError::MissingReceiptInputItemId { item_id });
    }
    if sum != authoritative_input_tokens {
        return Err(
            ProviderRequestAttributionError::AggregateInputTokensMismatch {
                expected: authoritative_input_tokens,
                actual: sum,
            },
        );
    }
    Ok(())
}

} // verus!
