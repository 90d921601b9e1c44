//! Text-level specifications: case-insensitive substring matching and the
//! filtering of an item sequence, together with the thin wrappers around the
//! standard library's string primitives that the executable code uses.

use vstd::prelude::*;

verus! {

/// The sequence of characters that `str::to_lowercase` produces for `s`.
/// Left uninterpreted: the full Unicode case-folding table is not restated
/// here; contracts speak of the result only through this name.
pub uninterp spec fn lower_of(s: Seq<char>) -> Seq<char>;

/// `needle` occurs contiguously inside `hay`.
pub open spec fn has_substring(hay: Seq<char>, needle: Seq<char>) -> bool {
    exists|i: int|
        0 <= i && i + needle.len() <= hay.len() && #[trigger] hay.subrange(i, i + needle.len())
            == needle
}

/// An item passes the filter: the filter is empty, or the item's lowercase
/// form contains the filter's lowercase form.
pub open spec fn item_matches(item: Seq<char>, filt: Seq<char>) -> bool {
    filt.len() == 0 || has_substring(lower_of(item), lower_of(filt))
}

/// The predicate over items induced by the filter text `filt`.
pub open spec fn match_pred(filt: Seq<char>) -> spec_fn(Seq<char>) -> bool {
    |item: Seq<char>| item_matches(item, filt)
}

/// The items that pass the filter, in their original order.
pub open spec fn filter_items(items: Seq<Seq<char>>, filt: Seq<char>) -> Seq<Seq<char>> {
    items.filter(match_pred(filt))
}

/// Relies on `str::to_lowercase`: the result is a function of the input
/// characters alone.
#[verifier::external_body]
pub(crate) fn lowercase(s: &String) -> (r: String)
    ensures
        r@ == lower_of(s@),
{
    s.to_lowercase()
}

/// Relies on `str::contains` with a `&str` pattern: true exactly when the
/// pattern's characters occur contiguously in the receiver.
#[verifier::external_body]
pub(crate) fn contains_substring(hay: &String, needle: &String) -> (r: bool)
    ensures
        r == has_substring(hay@, needle@),
{
    hay.as_str().contains(needle.as_str())
}

/// Relies on `String::push`: appends one character at the end.
#[verifier::external_body]
pub(crate) fn push_char(s: &mut String, c: char)
    ensures
        final(s)@ == old(s)@.push(c),
{
    s.push(c);
}

/// Relies on `String::pop`: removes the last character if there is one.
#[verifier::external_body]
pub(crate) fn pop_char(s: &mut String)
    ensures
        old(s)@.len() == 0 ==> final(s)@ == old(s)@,
        old(s)@.len() > 0 ==> final(s)@ == old(s)@.drop_last(),
{
    s.pop();
}

/// An empty filter keeps every item: filtering with empty filter text is the
/// identity on the item sequence.
pub proof fn lemma_filter_empty_identity(items: Seq<Seq<char>>, filt: Seq<char>)
    requires
        filt.len() == 0,
    ensures
        filter_items(items, filt) == items,
    decreases items.len(),
{
    broadcast use vstd::seq_lib::group_filter_ensures;

    if items.len() == 0 {
        assert(filter_items(items, filt) =~= items);
    } else {
        let prefix = items.drop_last();
        lemma_filter_empty_identity(prefix, filt);
        Seq::lemma_filter_push(prefix, items.last(), match_pred(filt));
        assert(prefix.push(items.last()) =~= items);
        assert(filter_items(items, filt) =~= items);
    }
}

/// Every element of the filtered sequence comes from the source sequence.
pub proof fn lemma_filter_items_in_source(items: Seq<Seq<char>>, filt: Seq<char>, k: int)
    requires
        0 <= k < filter_items(items, filt).len(),
    ensures
        exists|j: int| 0 <= j < items.len() && items[j] == filter_items(items, filt)[k],
    decreases items.len(),
{
    broadcast use vstd::seq_lib::group_filter_ensures;

    if items.len() == 0 {
        assert(false);
    } else {
        let prefix = items.drop_last();
        let pred = match_pred(filt);
        Seq::lemma_filter_push(prefix, items.last(), pred);
        assert(prefix.push(items.last()) =~= items);
        if k < prefix.filter(pred).len() {
            lemma_filter_items_in_source(prefix, filt, k);
            let j = choose|j: int| 0 <= j < prefix.len() && prefix[j] == filter_items(
                prefix,
                filt,
            )[k];
            assert(items[j] == filter_items(items, filt)[k]);
        } else {
            assert(items[items.len() - 1] == filter_items(items, filt)[k]);
        }
    }
}

} // verus!
