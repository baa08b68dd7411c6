//! Reconciling the records that the tabs gave into one record per security.
//!
//! Sources are taken in the order given and the records of a source in their
//! order. The first record seen for a code founds the consolidated record of
//! that code; each later record of the same code is merged into it. The result
//! lists the consolidated records in the order in which their codes were first
//! seen.

use crate::models::{lemma_merged_absorbs, merge_stock_data, merged, StockData, StockRecord};
use crate::text::{chars_of, spells};
use vstd::prelude::*;

verus! {

/// The position of the first record with `code` in `acc`, or the length of
/// `acc` where it has none.
pub open spec fn position_of(acc: Seq<StockRecord>, code: Seq<char>) -> int
    decreases acc.len(),
{
    if acc.len() == 0 {
        0
    } else if acc[0].code == code {
        0
    } else {
        1 + position_of(acc.drop_first(), code)
    }
}

/// The consolidated records after one more record: merged into the record of
/// its code where there is one, appended otherwise.
pub open spec fn absorb(acc: Seq<StockRecord>, item: StockRecord) -> Seq<StockRecord> {
    let k = position_of(acc, item.code);
    if k < acc.len() {
        acc.update(k, merged(acc[k], item))
    } else {
        acc.push(item)
    }
}

/// The consolidated records after the records of one source, taken in order.
pub open spec fn absorb_all(acc: Seq<StockRecord>, items: Seq<StockRecord>) -> Seq<StockRecord>
    decreases items.len(),
{
    if items.len() == 0 {
        acc
    } else {
        absorb(absorb_all(acc, items.drop_last()), items.last())
    }
}

/// The consolidated records after all sources, taken in order.
pub open spec fn merge_all(acc: Seq<StockRecord>, sources: Seq<Seq<StockRecord>>) -> Seq<
    StockRecord,
>
    decreases sources.len(),
{
    if sources.len() == 0 {
        acc
    } else {
        absorb_all(merge_all(acc, sources.drop_last()), sources.last())
    }
}

/// The consolidated records of a list of sources.
pub open spec fn merged_sources(sources: Seq<Seq<StockRecord>>) -> Seq<StockRecord> {
    merge_all(Seq::empty(), sources)
}

/// No record before position `k` has `code`, and position `k` is the end or
/// holds a record with `code`: `k` is the position of `code`.
pub proof fn lemma_position_of(acc: Seq<StockRecord>, code: Seq<char>, k: int)
    requires
        0 <= k <= acc.len(),
        forall|i: int| 0 <= i < k ==> (#[trigger] acc[i]).code != code,
        k < acc.len() ==> acc[k].code == code,
    ensures
        position_of(acc, code) == k,
    decreases k,
{
    if k > 0 {
        let t = acc.drop_first();
        assert forall|i: int| 0 <= i < k - 1 implies (#[trigger] t[i]).code != code by {
            assert(t[i] == acc[i + 1]);
        }
        lemma_position_of(t, code, k - 1);
    }
}

/// Whether two texts are the same.
fn same_text(a: &str, b: &str) -> (r: bool)
    ensures
        r == (a@ == b@),
{
    spells(&chars_of(a), b)
}

/// The position of the first record with `code` among `acc`, or its length.
pub fn find_code(acc: &Vec<StockData>, code: &str) -> (k: usize)
    ensures
        k == position_of(acc.deep_view(), code@),
        k <= acc.len(),
{
    let n: usize = acc.len();
    let mut k: usize = 0;
    while k < n && !same_text(acc[k].code.as_str(), code)
        invariant
            k <= n == acc.len(),
            forall|i: int| 0 <= i < k ==> (#[trigger] acc.deep_view()[i]).code != code@,
        decreases n - k,
    {
        k += 1;
    }
    proof {
        lemma_position_of(acc.deep_view(), code@, k as int);
    }
    k
}

/// Takes one source into the consolidated records.
fn absorb_source(acc: &mut Vec<StockData>, source: &Vec<StockData>)
    ensures
        final(acc).deep_view() == absorb_all(old(acc).deep_view(), source.deep_view()),
{
    let mut j: usize = 0;
    while j < source.len()
        invariant
            j <= source.len(),
            acc.deep_view() == absorb_all(old(acc).deep_view(), source.deep_view().take(j as int)),
        decreases source.len() - j,
    {
        let stock: &StockData = &source[j];
        let ghost before = acc.deep_view();
        proof {
            let next = source.deep_view().take(j + 1);
            assert(next.drop_last() == source.deep_view().take(j as int));
            assert(next.last() == stock@);
        }
        let k: usize = find_code(acc, stock.code.as_str());
        if k < acc.len() {
            let mut record: StockData = acc[k].clone();
            merge_stock_data(&mut record, stock);
            let ghost model = record@;
            acc.set(k, record);
            assert(acc.deep_view() =~= before.update(k as int, model));
        } else {
            acc.push(stock.clone());
            assert(acc.deep_view() =~= before.push(stock@));
        }
        j += 1;
    }
    assert(source.deep_view().take(source.len() as int) == source.deep_view());
}

/// Merges the records of all sources into one record per security.
///
/// Sources are taken in the order given. For every field the first value that
/// is not the field's default wins; a later source never overwrites it.
pub fn merge_stock_data_sources(data_sources: &[Vec<StockData>]) -> (r: Vec<StockData>)
    ensures
        r.deep_view() == merged_sources(data_sources.deep_view()),
{
    let mut acc: Vec<StockData> = Vec::new();
    let mut i: usize = 0;
    assert(acc.deep_view() =~= Seq::<StockRecord>::empty());
    while i < data_sources.len()
        invariant
            i <= data_sources.len(),
            acc.deep_view() == merge_all(Seq::empty(), data_sources.deep_view().take(i as int)),
        decreases data_sources.len() - i,
    {
        proof {
            let next = data_sources.deep_view().take(i + 1);
            assert(next.drop_last() == data_sources.deep_view().take(i as int));
            assert(next.last() == data_sources@[i as int].deep_view());
        }
        absorb_source(&mut acc, &data_sources[i]);
        i += 1;
    }
    assert(data_sources.deep_view().take(data_sources.len() as int) == data_sources.deep_view());
    acc
}

/// Whether `acc` has a record with `code`.
pub open spec fn holds_code(acc: Seq<StockRecord>, code: Seq<char>) -> bool {
    position_of(acc, code) < acc.len()
}

/// Whether no two records of `acc` share a code.
pub open spec fn codes_distinct(acc: Seq<StockRecord>) -> bool {
    forall|i: int, j: int|
        0 <= i < j < acc.len() ==> (#[trigger] acc[i]).code != (#[trigger] acc[j]).code
}

/// Whether some record of some source has `code`.
pub open spec fn occurs(sources: Seq<Seq<StockRecord>>, code: Seq<char>) -> bool {
    exists|i: int, j: int|
        0 <= i < sources.len() && 0 <= j < sources[i].len() && (#[trigger] sources[i][j]).code
            == code
}

/// Whether some record of `items` has `code`.
pub open spec fn occurs_in(items: Seq<StockRecord>, code: Seq<char>) -> bool {
    exists|j: int| 0 <= j < items.len() && (#[trigger] items[j]).code == code
}

/// The codes that occur in the sources.
pub open spec fn observed_codes(sources: Seq<Seq<StockRecord>>) -> Set<Seq<char>> {
    Set::new(|code: Seq<char>| occurs(sources, code))
}

/// Whether `acc` has a record of the code of `item` to which `item` brings
/// nothing new.
pub open spec fn covered(acc: Seq<StockRecord>, item: StockRecord) -> bool {
    holds_code(acc, item.code) && merged(acc[position_of(acc, item.code)], item) == acc[position_of(
        acc,
        item.code,
    )]
}

/// Whether every record of `items` is covered by `acc`.
pub open spec fn covers_all(acc: Seq<StockRecord>, items: Seq<StockRecord>) -> bool {
    forall|j: int| 0 <= j < items.len() ==> covered(acc, #[trigger] items[j])
}

/// The position of a code lies within the records or at their end, holds the
/// code where it lies within, and no position before it holds the code.
pub proof fn lemma_position_of_bounds(acc: Seq<StockRecord>, code: Seq<char>)
    ensures
        0 <= position_of(acc, code) <= acc.len(),
        holds_code(acc, code) ==> acc[position_of(acc, code)].code == code,
        forall|i: int| 0 <= i < position_of(acc, code) ==> (#[trigger] acc[i]).code != code,
    decreases acc.len(),
{
    if acc.len() > 0 && acc[0].code != code {
        let t = acc.drop_first();
        lemma_position_of_bounds(t, code);
        assert forall|i: int| 0 <= i < position_of(acc, code) implies (#[trigger] acc[i]).code
            != code by {
            if i > 0 {
                assert(acc[i] == t[i - 1]);
            }
        }
    }
}

/// What taking one more record does to the consolidated records: the codes that
/// were there stay where they are, the record of the new item's code is merged
/// with it or the item is appended, and every other record is untouched.
pub proof fn lemma_absorb_shape(acc: Seq<StockRecord>, item: StockRecord)
    ensures
        holds_code(acc, item.code) ==> absorb(acc, item).len() == acc.len(),
        !holds_code(acc, item.code) ==> absorb(acc, item) == acc.push(item),
        forall|i: int| 0 <= i < acc.len() ==> (#[trigger] absorb(acc, item)[i]).code == acc[i].code,
        forall|i: int|
            0 <= i < acc.len() && i != position_of(acc, item.code) ==> #[trigger] absorb(
                acc,
                item,
            )[i] == acc[i],
        holds_code(acc, item.code) ==> absorb(acc, item)[position_of(acc, item.code)] == merged(
            acc[position_of(acc, item.code)],
            item,
        ),
        forall|code: Seq<char>|
            holds_code(acc, code) ==> position_of(#[trigger] absorb(acc, item), code)
                == position_of(acc, code),
        forall|code: Seq<char>|
            holds_code(#[trigger] absorb(acc, item), code) <==> holds_code(acc, code) || code
                == item.code,
        codes_distinct(acc) ==> codes_distinct(absorb(acc, item)),
{
    let next = absorb(acc, item);
    let p = position_of(acc, item.code);
    lemma_position_of_bounds(acc, item.code);
    assert forall|code: Seq<char>| holds_code(acc, code) implies position_of(next, code)
        == position_of(acc, code) by {
        lemma_position_of_bounds(acc, code);
        lemma_position_of(next, code, position_of(acc, code));
    }
    assert forall|code: Seq<char>| holds_code(next, code) implies holds_code(acc, code) || code
        == item.code by {
        lemma_position_of_bounds(next, code);
        let q = position_of(next, code);
        if q < acc.len() {
            lemma_position_of_bounds(acc, code);
            if position_of(acc, code) >= acc.len() {
                assert(acc[q].code != code);
            }
        }
    }
    assert(holds_code(next, item.code)) by {
        if p < acc.len() {
            assert(position_of(next, item.code) == p);
        } else {
            assert forall|i: int| 0 <= i < p implies (#[trigger] next[i]).code != item.code by {
                assert(acc[i].code != item.code);
            }
            lemma_position_of(next, item.code, p);
        }
    }
    if codes_distinct(acc) {
        assert forall|i: int, j: int| 0 <= i < j < next.len() implies (#[trigger] next[i]).code != (
        #[trigger] next[j]).code by {
            if j < acc.len() {
                assert(acc[i].code != acc[j].code);
            } else {
                assert(acc[i].code != item.code);
            }
        }
    }
}

/// Taking one more record keeps covered what was covered, and covers the record
/// taken.
pub proof fn lemma_absorb_covers(acc: Seq<StockRecord>, item: StockRecord, earlier: StockRecord)
    requires
        covered(acc, earlier),
    ensures
        covered(absorb(acc, item), earlier),
        covered(absorb(acc, item), item),
{
    let next = absorb(acc, item);
    let p = position_of(acc, item.code);
    let q = position_of(acc, earlier.code);
    lemma_absorb_shape(acc, item);
    lemma_position_of_bounds(acc, item.code);
    lemma_position_of_bounds(acc, earlier.code);
    assert(position_of(next, earlier.code) == q);
    if q == p {
        lemma_merged_absorbs(acc[q], earlier, item);
    } else {
        assert(next[q] == acc[q]);
    }
    lemma_covers_taken(acc, item);
}

/// Taking a record covers it.
pub proof fn lemma_covers_taken(acc: Seq<StockRecord>, item: StockRecord)
    ensures
        covered(absorb(acc, item), item),
{
    let next = absorb(acc, item);
    let p = position_of(acc, item.code);
    lemma_absorb_shape(acc, item);
    lemma_position_of_bounds(acc, item.code);
    if p < acc.len() {
        assert(position_of(next, item.code) == p);
        lemma_merged_absorbs(item, item, acc[p]);
    } else {
        assert forall|i: int| 0 <= i < p implies (#[trigger] next[i]).code != item.code by {
            assert(acc[i].code != item.code);
        }
        lemma_position_of(next, item.code, p);
        assert(next[p] == item);
    }
}

/// Taking a source keeps covered what was covered, and covers the source taken.
pub proof fn lemma_absorb_all_covers(
    acc: Seq<StockRecord>,
    items: Seq<StockRecord>,
    earlier: Seq<StockRecord>,
)
    requires
        covers_all(acc, earlier),
    ensures
        covers_all(absorb_all(acc, items), earlier),
        covers_all(absorb_all(acc, items), items),
    decreases items.len(),
{
    if items.len() > 0 {
        let head = items.drop_last();
        let mid = absorb_all(acc, head);
        lemma_absorb_all_covers(acc, head, earlier);
        let next = absorb(mid, items.last());
        assert forall|j: int| 0 <= j < earlier.len() implies covered(
            next,
            #[trigger] earlier[j],
        ) by {
            lemma_absorb_covers(mid, items.last(), earlier[j]);
        }
        assert forall|j: int| 0 <= j < items.len() implies covered(next, #[trigger] items[j]) by {
            if j < head.len() {
                assert(items[j] == head[j]);
                lemma_absorb_covers(mid, items.last(), head[j]);
            } else {
                lemma_covers_taken(mid, items.last());
            }
        }
    }
}

/// Records that are covered change nothing when they are taken.
pub proof fn lemma_covered_source_changes_nothing(acc: Seq<StockRecord>, items: Seq<StockRecord>)
    requires
        covers_all(acc, items),
    ensures
        absorb_all(acc, items) == acc,
    decreases items.len(),
{
    if items.len() > 0 {
        let head = items.drop_last();
        assert forall|j: int| 0 <= j < head.len() implies covered(acc, #[trigger] head[j]) by {
            assert(head[j] == items[j]);
        }
        lemma_covered_source_changes_nothing(acc, head);
        let last = items.last();
        assert(covered(acc, items[items.len() - 1]));
        let p = position_of(acc, last.code);
        lemma_position_of_bounds(acc, last.code);
        assert(covered(acc, last));
        assert(acc.update(p, acc[p]) =~= acc);
    }
}

/// Every source that has been taken is covered by the consolidated records.
pub proof fn lemma_sources_are_covered(sources: Seq<Seq<StockRecord>>, k: int)
    requires
        0 <= k < sources.len(),
    ensures
        covers_all(merged_sources(sources), sources[k]),
    decreases sources.len(),
{
    let head = sources.drop_last();
    let mid = merge_all(Seq::empty(), head);
    if k < head.len() {
        lemma_sources_are_covered(head, k);
        assert(head[k] == sources[k]);
        lemma_absorb_all_covers(mid, sources.last(), sources[k]);
    } else {
        assert(covers_all(mid, Seq::<StockRecord>::empty()));
        lemma_absorb_all_covers(mid, sources.last(), Seq::empty());
    }
}

/// Merging is idempotent in its sources: a source that is given once more, after
/// the sources that include it, changes nothing in the result.
pub proof fn lemma_repeated_source_changes_nothing(sources: Seq<Seq<StockRecord>>, k: int)
    requires
        0 <= k < sources.len(),
    ensures
        merged_sources(sources.push(sources[k])) == merged_sources(sources),
{
    let again = sources.push(sources[k]);
    assert(again.drop_last() == sources);
    assert(again.last() == sources[k]);
    lemma_sources_are_covered(sources, k);
    lemma_covered_source_changes_nothing(merged_sources(sources), sources[k]);
}

/// Merging one source with itself gives what merging it alone gives.
pub proof fn lemma_merge_twice_is_once(source: Seq<StockRecord>)
    ensures
        merged_sources(seq![source, source]) == merged_sources(seq![source]),
{
    let once = seq![source];
    assert(once.push(once[0]) =~= seq![source, source]);
    lemma_repeated_source_changes_nothing(once, 0);
}

/// The result of taking one source has one record for each code that was there
/// or occurs in the source, and no two records of one code where there were
/// none before.
pub proof fn lemma_absorb_all_codes(acc: Seq<StockRecord>, items: Seq<StockRecord>)
    ensures
        codes_distinct(acc) ==> codes_distinct(absorb_all(acc, items)),
        forall|code: Seq<char>|
            holds_code(#[trigger] absorb_all(acc, items), code) <==> holds_code(acc, code)
                || occurs_in(items, code),
    decreases items.len(),
{
    if items.len() > 0 {
        let head = items.drop_last();
        let mid = absorb_all(acc, head);
        lemma_absorb_all_codes(acc, head);
        lemma_absorb_shape(mid, items.last());
        assert forall|code: Seq<char>| holds_code(absorb_all(acc, items), code) <==> holds_code(
            acc,
            code,
        ) || occurs_in(items, code) by {
            assert(holds_code(absorb(mid, items.last()), code) <==> holds_code(mid, code) || code
                == items.last().code);
            assert(holds_code(absorb_all(acc, head), code) <==> holds_code(acc, code)
                || occurs_in(head, code));
            if occurs_in(head, code) {
                let j = choose|j: int| 0 <= j < head.len() && (#[trigger] head[j]).code == code;
                assert(items[j].code == code);
            }
            if occurs_in(items, code) {
                let j = choose|j: int| 0 <= j < items.len() && (#[trigger] items[j]).code == code;
                if j < head.len() {
                    assert(head[j].code == code);
                }
            }
            if code == items.last().code {
                assert(items[items.len() - 1].code == code);
            }
        }
    } else {
        assert forall|code: Seq<char>| !occurs_in(items, code) by {}
    }
}

/// The result of merging has no two records of one code, and has a record of a
/// code exactly where the code occurs in a source.
pub proof fn lemma_merge_all_codes(sources: Seq<Seq<StockRecord>>)
    ensures
        codes_distinct(merged_sources(sources)),
        forall|code: Seq<char>|
            holds_code(merged_sources(sources), code) <==> #[trigger] occurs(sources, code),
    decreases sources.len(),
{
    if sources.len() > 0 {
        let head = sources.drop_last();
        let mid = merged_sources(head);
        lemma_merge_all_codes(head);
        lemma_absorb_all_codes(mid, sources.last());
        assert forall|code: Seq<char>| holds_code(merged_sources(sources), code) <==> occurs(
            sources,
            code,
        ) by {
            assert(holds_code(absorb_all(mid, sources.last()), code) <==> holds_code(mid, code)
                || occurs_in(sources.last(), code));
            assert(holds_code(mid, code) <==> occurs(head, code));
            if occurs(head, code) {
                let (i, j) = choose|i: int, j: int|
                    0 <= i < head.len() && 0 <= j < head[i].len() && (#[trigger] head[i][j]).code
                        == code;
                assert(sources[i][j].code == code);
            }
            if occurs_in(sources.last(), code) {
                let j = choose|j: int|
                    0 <= j < sources.last().len() && (#[trigger] sources.last()[j]).code == code;
                assert(sources[sources.len() - 1][j].code == code);
            }
            if occurs(sources, code) {
                let (i, j) = choose|i: int, j: int|
                    0 <= i < sources.len() && 0 <= j < sources[i].len() && (
                    #[trigger] sources[i][j]).code == code;
                if i < head.len() {
                    assert(head[i][j].code == code);
                } else {
                    assert(sources.last()[j].code == code);
                }
            }
        }
    } else {
        assert forall|code: Seq<char>| !occurs(sources, code) by {}
        assert forall|code: Seq<char>| !holds_code(Seq::<StockRecord>::empty(), code) by {}
    }
}

/// The result of merging has exactly as many records as there are distinct codes
/// in the sources.
pub proof fn lemma_one_record_per_code(sources: Seq<Seq<StockRecord>>)
    ensures
        observed_codes(sources).finite(),
        merged_sources(sources).len() == observed_codes(sources).len(),
{
    let records = merged_sources(sources);
    let codes = records.map_values(|r: StockRecord| r.code);
    lemma_merge_all_codes(sources);
    assert(codes.no_duplicates()) by {
        assert forall|i: int, j: int| 0 <= i < codes.len() && 0 <= j < codes.len() && i
            != j implies codes[i] != codes[j] by {
            if i < j {
                assert(records[i].code != records[j].code);
            } else {
                assert(records[j].code != records[i].code);
            }
        }
    }
    codes.unique_seq_to_set();
    vstd::seq_lib::seq_to_set_is_finite(codes);
    assert(codes.to_set() =~= observed_codes(sources)) by {
        assert forall|code: Seq<char>| codes.to_set().contains(code) <==> observed_codes(
            sources,
        ).contains(code) by {
            lemma_position_of_bounds(records, code);
            assert(holds_code(records, code) <==> occurs(sources, code));
            if codes.contains(code) {
                let i = choose|i: int| 0 <= i < codes.len() && codes[i] == code;
                assert(records[i].code == code);
            }
            if holds_code(records, code) {
                assert(codes[position_of(records, code)] == code);
            }
        }
    }
}

/// Taking a source of one record is taking that record.
pub proof fn lemma_absorb_single(acc: Seq<StockRecord>, item: StockRecord)
    ensures
        absorb_all(acc, seq![item]) == absorb(acc, item),
{
    let items = seq![item];
    assert(items.drop_last() =~= Seq::<StockRecord>::empty());
    assert(absorb_all(acc, items.drop_last()) == acc);
    assert(items.last() == item);
}

/// Two sources of one record each: records of the same code give one record,
/// in which every field holds the value of the first source unless that is the
/// default, and then the value of the second; records of different codes are
/// both kept.
pub proof fn lemma_merge_of_two(first: StockRecord, second: StockRecord)
    ensures
        merged_sources(seq![seq![first], seq![second]]) == if first.code == second.code {
            seq![merged(first, second)]
        } else {
            seq![first, second]
        },
{
    let sources = seq![seq![first], seq![second]];
    let empty = Seq::<StockRecord>::empty();
    assert(sources.drop_last() =~= seq![seq![first]]);
    assert(sources.drop_last().drop_last() =~= Seq::<Seq<StockRecord>>::empty());
    assert(seq![first].drop_last() =~= empty);
    assert(seq![second].drop_last() =~= empty);
    assert(merge_all(empty, sources.drop_last().drop_last()) == empty);
    lemma_absorb_single(empty, first);
    assert(position_of(empty, first.code) == 0);
    let one = empty.push(first);
    assert(merge_all(empty, sources.drop_last()) == one);
    lemma_absorb_single(one, second);
    if first.code == second.code {
        lemma_position_of(one, second.code, 0);
        assert(one.update(0, merged(first, second)) =~= seq![merged(first, second)]);
    } else {
        lemma_position_of(one, second.code, 1);
        assert(one.push(second) =~= seq![first, second]);
    }
}

/// The record of `code` among `acc`, if there is one.
pub open spec fn record_of(acc: Seq<StockRecord>, code: Seq<char>) -> Option<StockRecord> {
    if holds_code(acc, code) {
        Some(acc[position_of(acc, code)])
    } else {
        None
    }
}

/// What becomes of the record of `code` when `items` are seen in order: the
/// first item of the code founds it where there is none yet, and every later
/// item of the code is merged into it.
pub open spec fn folded(start: Option<StockRecord>, items: Seq<StockRecord>, code: Seq<char>)
    -> Option<StockRecord>
    decreases items.len(),
{
    if items.len() == 0 {
        start
    } else {
        let before = folded(start, items.drop_last(), code);
        if items.last().code == code {
            match before {
                Some(record) => Some(merged(record, items.last())),
                None => Some(items.last()),
            }
        } else {
            before
        }
    }
}

/// What becomes of the record of `code` when the sources are seen in order.
pub open spec fn folded_sources(
    start: Option<StockRecord>,
    sources: Seq<Seq<StockRecord>>,
    code: Seq<char>,
) -> Option<StockRecord>
    decreases sources.len(),
{
    if sources.len() == 0 {
        start
    } else {
        folded(folded_sources(start, sources.drop_last(), code), sources.last(), code)
    }
}

/// Taking one record changes the record of its own code only: it founds it or is
/// merged into it.
pub proof fn lemma_absorb_record(acc: Seq<StockRecord>, item: StockRecord, code: Seq<char>)
    ensures
        record_of(absorb(acc, item), code) == if item.code == code {
            match record_of(acc, code) {
                Some(record) => Some(merged(record, item)),
                None => Some(item),
            }
        } else {
            record_of(acc, code)
        },
{
    let next = absorb(acc, item);
    let p = position_of(acc, item.code);
    lemma_absorb_shape(acc, item);
    lemma_position_of_bounds(acc, item.code);
    lemma_position_of_bounds(acc, code);
    lemma_position_of_bounds(next, code);
    if item.code == code {
        if p < acc.len() {
            assert(position_of(next, code) == p);
        } else {
            assert forall|i: int| 0 <= i < p implies (#[trigger] next[i]).code != code by {
                assert(acc[i].code != code);
            }
            lemma_position_of(next, code, p);
            assert(next[p] == item);
        }
    } else {
        assert(holds_code(next, code) <==> holds_code(acc, code));
        if holds_code(acc, code) {
            let q = position_of(acc, code);
            assert(position_of(next, code) == q);
            assert(q != p);
            assert(next[q] == acc[q]);
        }
    }
}

/// Taking a source folds its records into the record of each code.
pub proof fn lemma_absorb_all_record(
    acc: Seq<StockRecord>,
    items: Seq<StockRecord>,
    code: Seq<char>,
)
    ensures
        record_of(absorb_all(acc, items), code) == folded(record_of(acc, code), items, code),
    decreases items.len(),
{
    if items.len() > 0 {
        lemma_absorb_all_record(acc, items.drop_last(), code);
        lemma_absorb_record(absorb_all(acc, items.drop_last()), items.last(), code);
    }
}

/// First non-default wins, for every code and every field: the consolidated
/// record of a code is the first record of that code in the sources, with every
/// later record of the code merged into it in order, so that each field holds
/// the first value met that is not the field's default. A code that no source
/// has gets no record.
pub proof fn lemma_record_is_folded(sources: Seq<Seq<StockRecord>>, code: Seq<char>)
    ensures
        record_of(merged_sources(sources), code) == folded_sources(None, sources, code),
    decreases sources.len(),
{
    if sources.len() > 0 {
        lemma_record_is_folded(sources.drop_last(), code);
        lemma_absorb_all_record(merged_sources(sources.drop_last()), sources.last(), code);
    } else {
        assert(position_of(Seq::<StockRecord>::empty(), code) == 0);
    }
}

} // verus!
