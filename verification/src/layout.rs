//! The order of a record's fields in memory.
//!
//! The guest does not lay a record out in the order of its declaration. A
//! larger field comes before a smaller one, and fields of one size come in
//! the alphabetical order of their names.

use vstd::prelude::*;
use vstd::seq_lib::seq_to_set_is_finite;
use vstd::set_lib::{lemma_int_range, lemma_subset_equality, set_int_range};
use vstd::utf8::{encode_utf8, is_ascii_chars, is_ascii_chars_encode_utf8};

verus! {

/// A field of a record: its name and its size in bytes.
pub struct Field {
    pub name: String,
    pub size: usize,
}

impl Field {
    /// A field with the given name and size.
    pub fn new(name: &str, size: usize) -> (field: Field)
        ensures
            field.name@ == name@,
            field.size == size,
    {
        Field { name: name.to_owned(), size }
    }

    /// The bytes of the name, by which names are compared.
    pub open spec fn name_bytes(&self) -> Seq<u8> {
        encode_utf8(self.name@)
    }
}

/// Whether `a` comes before `b` in the lexicographic order of bytes.
pub open spec fn bytes_less(a: Seq<u8>, b: Seq<u8>) -> bool
    decreases a.len(),
{
    if b.len() == 0 {
        false
    } else if a.len() == 0 {
        true
    } else if a[0] != b[0] {
        a[0] < b[0]
    } else {
        bytes_less(a.drop_first(), b.drop_first())
    }
}

/// No byte string comes before itself.
pub proof fn lemma_bytes_less_irreflexive(a: Seq<u8>)
    ensures
        !bytes_less(a, a),
    decreases a.len(),
{
    if a.len() > 0 {
        lemma_bytes_less_irreflexive(a.drop_first());
    }
}

/// What comes before a byte string comes before everything after it.
pub proof fn lemma_bytes_less_transitive(a: Seq<u8>, b: Seq<u8>, c: Seq<u8>)
    requires
        bytes_less(a, b),
        bytes_less(b, c),
    ensures
        bytes_less(a, c),
    decreases a.len(),
{
    if a.len() > 0 && a[0] == b[0] && b[0] == c[0] {
        lemma_bytes_less_transitive(a.drop_first(), b.drop_first(), c.drop_first());
    }
}

/// Of two distinct byte strings one comes before the other.
pub proof fn lemma_bytes_less_total(a: Seq<u8>, b: Seq<u8>)
    ensures
        bytes_less(a, b) || bytes_less(b, a) || a == b,
    decreases a.len(),
{
    if a.len() > 0 && b.len() > 0 && a[0] == b[0] {
        lemma_bytes_less_total(a.drop_first(), b.drop_first());
        if a.drop_first() == b.drop_first() {
            assert(a =~= seq![a[0]] + a.drop_first());
            assert(b =~= seq![b[0]] + b.drop_first());
        }
    } else if a.len() == 0 && b.len() == 0 {
        assert(a =~= b);
    }
}

/// A byte string comes before another one where the two agree up to a
/// position at which the first one ends or has the smaller byte.
pub proof fn lemma_bytes_less_at_first_difference(a: Seq<u8>, b: Seq<u8>, k: int)
    requires
        0 <= k <= a.len(),
        k < b.len(),
        forall|j: int| 0 <= j < k ==> a[j] == b[j],
        k == a.len() || a[k] < b[k],
    ensures
        bytes_less(a, b),
    decreases k,
{
    if k > 0 {
        lemma_bytes_less_at_first_difference(a.drop_first(), b.drop_first(), k - 1);
    }
}

/// Texts of ASCII characters are ordered as their characters are.
pub proof fn lemma_ascii_text_less(a: Seq<char>, b: Seq<char>, k: int)
    requires
        is_ascii_chars(a),
        is_ascii_chars(b),
        0 <= k <= a.len(),
        k < b.len(),
        forall|j: int| 0 <= j < k ==> a[j] == b[j],
        k == a.len() || a[k] < b[k],
    ensures
        bytes_less(encode_utf8(a), encode_utf8(b)),
{
    is_ascii_chars_encode_utf8(a);
    is_ascii_chars_encode_utf8(b);
    lemma_bytes_less_at_first_difference(encode_utf8(a), encode_utf8(b), k);
}

/// Whether field `i` of the record lies before field `j` in memory: it is
/// larger, or as large with a name that comes first, or (where a record
/// names a field twice) as large and of the same name and declared first.
pub open spec fn placed_before(fields: Seq<Field>, i: int, j: int) -> bool {
    let a = fields[i];
    let b = fields[j];
    ||| a.size > b.size
    ||| a.size == b.size && bytes_less(a.name_bytes(), b.name_bytes())
    ||| a.size == b.size && a.name_bytes() == b.name_bytes() && i < j
}

/// `placed_before` is a strict total order on the fields of a record.
pub proof fn lemma_placed_before_is_strict_total_order(fields: Seq<Field>, i: int, j: int, k: int)
    ensures
        !placed_before(fields, i, i),
        placed_before(fields, i, j) && placed_before(fields, j, k) ==> placed_before(fields, i, k),
        placed_before(fields, i, j) || placed_before(fields, j, i) || i == j,
{
    let a = fields[i].name_bytes();
    let b = fields[j].name_bytes();
    let c = fields[k].name_bytes();
    lemma_bytes_less_irreflexive(a);
    lemma_bytes_less_irreflexive(b);
    lemma_bytes_less_total(a, b);
    if bytes_less(a, b) && bytes_less(b, c) {
        lemma_bytes_less_transitive(a, b, c);
    }
}

/// Whether `order` lists the positions of the fields of a record as they lie
/// in memory: `order[k]` is the declared position of the field that comes
/// `k`-th. Every field is listed, and each lies before the ones after it.
pub open spec fn is_physical_order(fields: Seq<Field>, order: Seq<usize>) -> bool {
    &&& order.len() == fields.len()
    &&& forall|k: int| 0 <= k < order.len() ==> 0 <= #[trigger] order[k] < fields.len()
    &&& forall|k: int, l: int|
        #![trigger order[k], order[l]]
        0 <= k < l < order.len() ==> placed_before(fields, order[k] as int, order[l] as int)
}

/// A physical order lists every field of the record.
pub proof fn lemma_physical_order_lists_every_field(
    fields: Seq<Field>,
    order: Seq<usize>,
    i: int,
)
    requires
        is_physical_order(fields, order),
        0 <= i < fields.len(),
    ensures
        exists|m: int| 0 <= m < order.len() && order[m] == i,
{
    let n = fields.len() as int;
    let positions = Seq::new(order.len(), |k: int| order[k] as int);
    assert forall|k: int, l: int|
        0 <= k < positions.len() && 0 <= l < positions.len() && k != l implies positions[k]
        != positions[l] by {
        lemma_placed_before_is_strict_total_order(fields, positions[k], positions[k], 0);
        if k < l {
            assert(placed_before(fields, order[k] as int, order[l] as int));
        } else {
            assert(placed_before(fields, order[l] as int, order[k] as int));
        }
    }
    positions.unique_seq_to_set();
    lemma_int_range(0, n);
    seq_to_set_is_finite(positions);
    assert(positions.to_set().subset_of(set_int_range(0, n))) by {
        assert forall|x: int| positions.to_set().contains(x) implies set_int_range(0, n).contains(
            x,
        ) by {
            let m = choose|m: int| 0 <= m < positions.len() && positions[m] == x;
            assert(0 <= order[m] < n);
        }
    }
    lemma_subset_equality(positions.to_set(), set_int_range(0, n));
    assert(set_int_range(0, n).contains(i));
    assert(positions.to_set().contains(i));
    let m = choose|m: int| 0 <= m < positions.len() && positions[m] == i;
    assert(order[m] == i);
}

/// Two physical orders of one record agree up to position `k`.
proof fn lemma_physical_orders_agree(fields: Seq<Field>, a: Seq<usize>, b: Seq<usize>, k: int)
    requires
        is_physical_order(fields, a),
        is_physical_order(fields, b),
        0 <= k <= fields.len(),
    ensures
        forall|j: int| 0 <= j < k ==> a[j] == b[j],
    decreases k,
{
    if k > 0 {
        let at = k - 1;
        lemma_physical_orders_agree(fields, a, b, at);
        let x = a[at] as int;
        let y = b[at] as int;
        lemma_placed_before_is_strict_total_order(fields, x, y, x);
        lemma_placed_before_is_strict_total_order(fields, y, x, y);
        if placed_before(fields, x, y) {
            lemma_physical_order_lists_every_field(fields, b, x);
            let m = choose|m: int| 0 <= m < b.len() && b[m] == x;
            if m < at {
                assert(placed_before(fields, a[m] as int, a[at] as int));
            } else if m > at {
                assert(placed_before(fields, b[at] as int, b[m] as int));
            }
        } else if placed_before(fields, y, x) {
            lemma_physical_order_lists_every_field(fields, a, y);
            let m = choose|m: int| 0 <= m < a.len() && a[m] == y;
            if m < at {
                assert(placed_before(fields, b[m] as int, b[at] as int));
            } else if m > at {
                assert(placed_before(fields, a[at] as int, a[m] as int));
            }
        }
    }
}

/// A record has one physical order.
pub proof fn lemma_physical_order_is_unique(fields: Seq<Field>, a: Seq<usize>, b: Seq<usize>)
    requires
        is_physical_order(fields, a),
        is_physical_order(fields, b),
    ensures
        a == b,
{
    lemma_physical_orders_agree(fields, a, b, fields.len() as int);
    assert(a =~= b);
}

/// Whether `a` comes before `b` in the lexicographic order of bytes.
pub fn bytes_less_than(a: &[u8], b: &[u8]) -> (less: bool)
    ensures
        less == bytes_less(a@, b@),
{
    let mut i: usize = 0;
    proof {
        assert(a@.skip(0) =~= a@);
        assert(b@.skip(0) =~= b@);
    }
    while i < a.len() && i < b.len() && a[i] == b[i]
        invariant
            i <= a.len(),
            i <= b.len(),
            bytes_less(a@, b@) == bytes_less(a@.skip(i as int), b@.skip(i as int)),
        decreases a.len() - i,
    {
        proof {
            let x = a@.skip(i as int);
            let y = b@.skip(i as int);
            assert(x.drop_first() =~= a@.skip(i + 1));
            assert(y.drop_first() =~= b@.skip(i + 1));
        }
        i = i + 1;
    }
    if i < b.len() {
        i == a.len() || a[i] < b[i]
    } else {
        false
    }
}

/// Whether field `i` lies before field `j` in memory.
fn is_placed_before(fields: &Vec<Field>, i: usize, j: usize) -> (before: bool)
    requires
        i < fields.len(),
        j < fields.len(),
    ensures
        before == placed_before(fields@, i as int, j as int),
{
    let a = &fields[i];
    let b = &fields[j];
    if a.size != b.size {
        return a.size > b.size;
    }
    let a_name = a.name.as_str().as_bytes();
    let b_name = b.name.as_str().as_bytes();
    if bytes_less_than(a_name, b_name) {
        true
    } else if bytes_less_than(b_name, a_name) {
        proof {
            lemma_placed_before_is_strict_total_order(fields@, i as int, j as int, i as int);
            if a.name_bytes() == b.name_bytes() {
                lemma_bytes_less_irreflexive(a.name_bytes());
            }
        }
        false
    } else {
        proof {
            lemma_bytes_less_total(a.name_bytes(), b.name_bytes());
        }
        i < j
    }
}

/// The order of the fields of a record in memory, as the list of their
/// declared positions.
pub fn physical_order(fields: &Vec<Field>) -> (order: Vec<usize>)
    ensures
        is_physical_order(fields@, order@),
{
    let mut order: Vec<usize> = Vec::new();
    let mut next: usize = 0;
    while next < fields.len()
        invariant
            next <= fields.len(),
            order.len() == next,
            forall|k: int| 0 <= k < order.len() ==> 0 <= #[trigger] order[k] < next,
            forall|k: int, l: int|
                0 <= k < l < order.len() ==> placed_before(fields@, order[k] as int, order[l] as int),
        decreases fields.len() - next,
    {
        let mut at: usize = order.len();
        while at > 0 && is_placed_before(fields, next, order[at - 1])
            invariant
                at <= order.len(),
                order.len() == next,
                next < fields.len(),
                forall|k: int| 0 <= k < order.len() ==> 0 <= #[trigger] order[k] < next,
                forall|k: int|
                    at <= k < order.len() ==> placed_before(
                        fields@,
                        next as int,
                        #[trigger] order[k] as int,
                    ),
            decreases at,
        {
            at = at - 1;
        }
        proof {
            let before = order@;
            let after = before.insert(at as int, next);
            assert forall|k: int, l: int| 0 <= k < l < after.len() implies placed_before(
                fields@,
                after[k] as int,
                after[l] as int,
            ) by {
                if l < at {
                    assert(after[k] == before[k] && after[l] == before[l]);
                } else if l == at {
                    assert(after[k] == before[k]);
                    lemma_placed_before_is_strict_total_order(
                        fields@,
                        before[at - 1] as int,
                        next as int,
                        0,
                    );
                    if k < at - 1 {
                        lemma_placed_before_is_strict_total_order(
                            fields@,
                            before[k] as int,
                            before[at - 1] as int,
                            next as int,
                        );
                    }
                } else if k < at {
                    assert(after[k] == before[k] && after[l] == before[l - 1]);
                } else if k == at {
                    assert(after[l] == before[l - 1]);
                } else {
                    assert(after[k] == before[k - 1] && after[l] == before[l - 1]);
                }
            }
            assert forall|k: int| 0 <= k < after.len() implies 0 <= #[trigger] after[k] < next
                + 1 by {
                if k < at {
                    assert(after[k] == before[k]);
                } else if k > at {
                    assert(after[k] == before[k - 1]);
                }
            }
        }
        order.insert(at, next);
        next = next + 1;
    }
    order
}

} // verus!
