//! Address filters: an optional inclusion list restricting a subscription
//! to specific addresses. An absent or empty configured list means "no
//! filtering on this dimension" and must never become a present filter
//! with zero elements, which would instead filter everything out.

use vstd::prelude::*;

verus! {

/// A wire-level inclusion filter: the subscription matches only the
/// listed addresses. "No filter" is `None` at the request field, never
/// an empty list here.
#[derive(Debug, PartialEq, Eq)]
pub struct AddressFilter {
    pub addresses: Vec<String>,
}

/// The contents of an optional configured address list, as an optional
/// sequence of address strings.
pub open spec fn list_rep(list: Option<Vec<String>>) -> Option<Seq<String>> {
    match list {
        Option::None => Option::None,
        Option::Some(v) => Option::Some(v@),
    }
}

/// The contents of an optional filter value, as an optional sequence of
/// address strings.
pub open spec fn filter_rep(filter: Option<AddressFilter>) -> Option<Seq<String>> {
    match filter {
        Option::None => Option::None,
        Option::Some(f) => Option::Some(f.addresses@),
    }
}

/// The filter that a configured optional address list gives rise to:
/// `None` for an absent or empty list, otherwise exactly the configured
/// strings in order.
pub open spec fn filter_of(list: Option<Seq<String>>) -> Option<Seq<String>> {
    match list {
        Option::None => Option::None,
        Option::Some(s) => if s.len() == 0 {
            Option::None
        } else {
            Option::Some(s)
        },
    }
}

/// Builds the optional wire-level filter for one dimension from the
/// configured optional address list: absent or empty lists yield no
/// filter; a non-empty list passes through verbatim, in order.
pub fn create_address_filter(addresses: Option<Vec<String>>) -> (r: Option<AddressFilter>)
    ensures
        filter_rep(r) == filter_of(list_rep(addresses)),
{
    match addresses {
        Option::None => Option::None,
        Option::Some(list) => if list.len() == 0 {
            Option::None
        } else {
            Option::Some(AddressFilter { addresses: list })
        },
    }
}

/// Filter omission: an absent or empty configured list yields no filter,
/// never a present filter with zero elements.
pub proof fn lemma_filter_omission(list: Option<Seq<String>>)
    requires
        list matches Option::Some(s) ==> s.len() == 0,
    ensures
        filter_of(list) is None,
{
}

/// Filter pass-through: a non-empty configured list yields a filter
/// holding exactly those strings, in the same order, unmodified.
pub proof fn lemma_filter_passthrough(s: Seq<String>)
    requires
        s.len() > 0,
    ensures
        filter_of(Option::Some(s)) == Option::Some(s),
{
}

} // verus!
