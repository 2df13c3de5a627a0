//! The shape of one virtualization-inventory entry and the pure part of
//! assembling it: turning the hypervisor's numeric run-state into its display
//! name and putting the queried values into one record. The hypervisor query
//! itself is an external collaborator and stays outside the verified library.

use vstd::prelude::*;
use vstd::multiset::Multiset;
use crate::text::{ci_lex_le, ci_lex_le_exec, lemma_ci_lex_le_total, lemma_ci_lex_le_trans};

verus! {

/// Domain information returned to the inventory listing.
#[derive(Clone, Debug)]
pub struct DomainInfo {
    pub name: String,
    pub full_name: String,
    pub uuid: String,
    pub state: String,
    pub time: u64,
    pub memory: u64,
    pub max_mem: u64,
}

/// The display name of a hypervisor run-state code.
pub open spec fn spec_state_name(code: u32) -> Seq<char> {
    if code == 0 {
        "No State"@
    } else if code == 1 {
        "Running"@
    } else if code == 2 {
        "Blocked"@
    } else if code == 3 {
        "Paused"@
    } else if code == 4 {
        "Shutdown"@
    } else if code == 5 {
        "Shutoff"@
    } else if code == 6 {
        "Crashed"@
    } else if code == 7 {
        "Suspended"@
    } else {
        "Unknown"@
    }
}

/// Turn a hypervisor run-state code into its display name.
pub fn domain_state_name(code: u32) -> (r: &'static str)
    ensures
        r@ == spec_state_name(code),
{
    if code == 0 {
        "No State"
    } else if code == 1 {
        "Running"
    } else if code == 2 {
        "Blocked"
    } else if code == 3 {
        "Paused"
    } else if code == 4 {
        "Shutdown"
    } else if code == 5 {
        "Shutoff"
    } else if code == 6 {
        "Crashed"
    } else if code == 7 {
        "Suspended"
    } else {
        "Unknown"
    }
}

/// Assemble one inventory record from the plain values a hypervisor query
/// returns, naming the run-state code.
pub fn domain_info(
    name: String,
    full_name: String,
    uuid: String,
    state_code: u32,
    time: u64,
    memory: u64,
    max_mem: u64,
) -> (r: DomainInfo)
    ensures
        r.name@ == name@,
        r.full_name@ == full_name@,
        r.uuid@ == uuid@,
        r.state@ == spec_state_name(state_code),
        r.time == time,
        r.memory == memory,
        r.max_mem == max_mem,
{
    let state = String::from_str(domain_state_name(state_code));
    DomainInfo { name, full_name, uuid, state, time, memory, max_mem }
}

/// The column of the listing a sort goes by.
#[derive(Clone, Copy, PartialEq, Eq, Structural, Debug)]
pub enum SortColumn {
    Name,
    State,
    Memory,
    MaxMem,
}

/// Whether `a` comes no later than `b` under the given column's key:
/// case-insensitive lexicographic for the text columns, numeric for the
/// memory columns.
pub open spec fn spec_col_le(col: SortColumn, a: DomainInfo, b: DomainInfo) -> bool {
    match col {
        SortColumn::Name => ci_lex_le(a.name@, b.name@),
        SortColumn::State => ci_lex_le(a.state@, b.state@),
        SortColumn::Memory => a.memory <= b.memory,
        SortColumn::MaxMem => a.max_mem <= b.max_mem,
    }
}

/// The listing order: the column's key order, reversed when descending.
pub open spec fn spec_listing_le(col: SortColumn, descending: bool, a: DomainInfo, b: DomainInfo)
    -> bool {
    if descending {
        spec_col_le(col, b, a)
    } else {
        spec_col_le(col, a, b)
    }
}

/// The listing order is total.
pub proof fn lemma_listing_le_total(col: SortColumn, descending: bool, a: DomainInfo, b: DomainInfo)
    ensures
        spec_listing_le(col, descending, a, b) || spec_listing_le(col, descending, b, a),
{
    match col {
        SortColumn::Name => lemma_ci_lex_le_total(a.name@, b.name@),
        SortColumn::State => lemma_ci_lex_le_total(a.state@, b.state@),
        SortColumn::Memory => {},
        SortColumn::MaxMem => {},
    }
}

/// The listing order is transitive.
pub proof fn lemma_listing_le_trans(
    col: SortColumn,
    descending: bool,
    a: DomainInfo,
    b: DomainInfo,
    c: DomainInfo,
)
    requires
        spec_listing_le(col, descending, a, b),
        spec_listing_le(col, descending, b, c),
    ensures
        spec_listing_le(col, descending, a, c),
{
    if descending {
        match col {
            SortColumn::Name => lemma_ci_lex_le_trans(c.name@, b.name@, a.name@),
            SortColumn::State => lemma_ci_lex_le_trans(c.state@, b.state@, a.state@),
            SortColumn::Memory => {},
            SortColumn::MaxMem => {},
        }
    } else {
        match col {
            SortColumn::Name => lemma_ci_lex_le_trans(a.name@, b.name@, c.name@),
            SortColumn::State => lemma_ci_lex_le_trans(a.state@, b.state@, c.state@),
            SortColumn::Memory => {},
            SortColumn::MaxMem => {},
        }
    }
}

/// Compare two records in the listing order.
fn listing_le(col: SortColumn, descending: bool, a: &DomainInfo, b: &DomainInfo) -> (r: bool)
    ensures
        r == spec_listing_le(col, descending, *a, *b),
{
    let (x, y) = if descending {
        (b, a)
    } else {
        (a, b)
    };
    match col {
        SortColumn::Name => ci_lex_le_exec(x.name.as_str(), y.name.as_str()),
        SortColumn::State => ci_lex_le_exec(x.state.as_str(), y.state.as_str()),
        SortColumn::Memory => x.memory <= y.memory,
        SortColumn::MaxMem => x.max_mem <= y.max_mem,
    }
}

/// Inserting an element into a sequence adds exactly it to the multiset of
/// elements.
proof fn lemma_insert_to_multiset(s: Seq<DomainInfo>, j: int, x: DomainInfo)
    requires
        0 <= j <= s.len(),
    ensures
        s.insert(j, x).to_multiset() == s.to_multiset().insert(x),
{
    broadcast use vstd::seq_lib::group_to_multiset_ensures;
    broadcast use vstd::multiset::group_multiset_axioms;

    let s2 = s.insert(j, x);
    s.insert_ensures(j, x);
    s2.remove_ensures(j);
    assert(s2.remove(j) =~= s);
    assert(s2[j] == x);
    assert(s.to_multiset() =~= s2.to_multiset().remove(x));
    assert(s2.to_multiset().count(x) > 0);
    assert(s2.to_multiset() =~= s.to_multiset().insert(x));
}

/// Sort the listing by a column: the result holds exactly the given records
/// and is ordered by the column's key, ascending or descending. Records
/// whose keys tie may come out in any order.
pub fn sort_listing(list: Vec<DomainInfo>, col: SortColumn, descending: bool) -> (r: Vec<
    DomainInfo,
>)
    ensures
        r@.to_multiset() == list@.to_multiset(),
        r@.len() == list@.len(),
        forall|i: int, j: int|
            0 <= i < j < r@.len() ==> spec_listing_le(col, descending, r@[i], r@[j]),
{
    let mut rest = list;
    let mut out: Vec<DomainInfo> = Vec::new();
    proof {
        broadcast use vstd::seq_lib::group_to_multiset_ensures;
        broadcast use vstd::multiset::group_multiset_axioms;

        assert(out@.to_multiset().add(rest@.to_multiset()) =~= list@.to_multiset());
    }
    while rest.len() > 0
        invariant
            out@.to_multiset().add(rest@.to_multiset()) == list@.to_multiset(),
            out@.len() + rest@.len() == list@.len(),
            forall|i: int, j: int|
                0 <= i < j < out@.len() ==> spec_listing_le(col, descending, out@[i], out@[j]),
        decreases rest.len(),
    {
        let ghost rest0 = rest@;
        let ghost out0 = out@;
        let x = rest.remove(0);
        proof {
            broadcast use vstd::seq_lib::group_to_multiset_ensures;
            broadcast use vstd::multiset::group_multiset_axioms;

            assert(rest0[0] == x);
            assert(rest@ == rest0.remove(0));
            assert(rest0.to_multiset().count(x) > 0);
        }
        let mut j: usize = 0;
        while j < out.len() && listing_le(col, descending, &out[j], &x)
            invariant
                0 <= j <= out@.len(),
                out@ == out0,
                forall|k: int| 0 <= k < j ==> spec_listing_le(col, descending, out@[k], x),
            decreases out@.len() - j,
        {
            j += 1;
        }
        proof {
            broadcast use vstd::seq_lib::group_to_multiset_ensures;
            broadcast use vstd::multiset::group_multiset_axioms;

            if (j as int) < out0.len() {
                // the scan stopped here, so x goes no later than this record
                lemma_listing_le_total(col, descending, out0[j as int], x);
                assert(spec_listing_le(col, descending, x, out0[j as int]));
            }
            lemma_insert_to_multiset(out0, j as int, x);
            out0.insert_ensures(j as int, x);
            // the multisets balance: one record moved from rest to out
            assert(out0.insert(j as int, x).to_multiset().add(rest0.remove(0).to_multiset())
                =~= out0.to_multiset().add(rest0.to_multiset()));
            // the new record fits between its neighbours
            let s2 = out0.insert(j as int, x);
            assert forall|p: int, q: int| 0 <= p < q < s2.len() implies spec_listing_le(
                col,
                descending,
                s2[p],
                s2[q],
            ) by {
                if q < j {
                    assert(s2[p] == out0[p]);
                    assert(s2[q] == out0[q]);
                } else if q == j {
                    assert(s2[p] == out0[p]);
                    assert(s2[q] == x);
                } else if p == j {
                    assert(s2[p] == x);
                    assert(s2[q] == out0[q - 1]);
                    if q - 1 > j {
                        lemma_listing_le_trans(col, descending, x, out0[j as int], out0[q - 1]);
                    }
                } else if p < j {
                    assert(s2[p] == out0[p]);
                    assert(s2[q] == out0[q - 1]);
                } else {
                    assert(s2[p] == out0[p - 1]);
                    assert(s2[q] == out0[q - 1]);
                }
            }
        }
        out.insert(j, x);
    }
    proof {
        broadcast use vstd::seq_lib::group_to_multiset_ensures;
        broadcast use vstd::multiset::group_multiset_axioms;

        assert(rest@.to_multiset() =~= Multiset::<DomainInfo>::empty());
        assert(out@.to_multiset() =~= list@.to_multiset());
    }
    out
}

} // verus!
