//! Merging the two guest collections into one list, ordered by name.
//!
//! Names are compared byte by byte over their UTF-8 encoding. Guests with
//! the same name keep the order in which they came in; nothing is removed,
//! so an identifier that occurs in both collections occurs twice.

use vstd::prelude::*;
use vstd::string::*;
use vstd::utf8::*;
use crate::models::{Guest, GuestView, LXC, VM};

verus! {

/// Lexicographic order on byte strings: `a` comes no later than `b`.
pub open spec fn bytes_le(a: Seq<u8>, b: Seq<u8>) -> bool
    decreases a.len(),
{
    if a.len() == 0 {
        true
    } else if b.len() == 0 {
        false
    } else if a[0] != b[0] {
        a[0] < b[0]
    } else {
        bytes_le(a.drop_first(), b.drop_first())
    }
}

/// The order of names: byte-wise over the UTF-8 encoding.
pub open spec fn name_le(a: Seq<char>, b: Seq<char>) -> bool {
    bytes_le(encode_utf8(a), encode_utf8(b))
}

/// Every byte string comes no later than itself.
pub proof fn lemma_bytes_le_reflexive(a: Seq<u8>)
    ensures
        bytes_le(a, a),
    decreases a.len(),
{
    if a.len() > 0 {
        lemma_bytes_le_reflexive(a.drop_first());
    }
}

/// Of two byte strings, one comes no later than the other.
pub proof fn lemma_bytes_le_total(a: Seq<u8>, b: Seq<u8>)
    ensures
        bytes_le(a, b) || bytes_le(b, a),
    decreases a.len(),
{
    if a.len() > 0 && b.len() > 0 && a[0] == b[0] {
        lemma_bytes_le_total(a.drop_first(), b.drop_first());
    }
}

/// The order on byte strings is transitive.
pub proof fn lemma_bytes_le_transitive(a: Seq<u8>, b: Seq<u8>, c: Seq<u8>)
    requires
        bytes_le(a, b),
        bytes_le(b, c),
    ensures
        bytes_le(a, c),
    decreases a.len(),
{
    if a.len() > 0 && b.len() > 0 && c.len() > 0 && a[0] == b[0] && b[0] == c[0] {
        lemma_bytes_le_transitive(a.drop_first(), b.drop_first(), c.drop_first());
    }
}

/// Two byte strings that come no later than each other are the same.
pub proof fn lemma_bytes_le_antisymmetric(a: Seq<u8>, b: Seq<u8>)
    requires
        bytes_le(a, b),
        bytes_le(b, a),
    ensures
        a == b,
    decreases a.len(),
{
    if a.len() > 0 && b.len() > 0 {
        lemma_bytes_le_antisymmetric(a.drop_first(), b.drop_first());
        assert(b =~= seq![b[0]] + b.drop_first());
    }
}

/// Two names that come no later than each other are the same name.
pub proof fn lemma_name_le_antisymmetric(a: Seq<char>, b: Seq<char>)
    requires
        name_le(a, b),
        name_le(b, a),
    ensures
        a == b,
{
    lemma_bytes_le_antisymmetric(encode_utf8(a), encode_utf8(b));
    encode_utf8_decode_utf8(a);
    encode_utf8_decode_utf8(b);
}

/// Whether `a` comes no later than `b` in the order of names.
pub fn name_no_later(a: &str, b: &str) -> (r: bool)
    ensures
        r == name_le(a@, b@),
{
    let x = a.as_bytes();
    let y = b.as_bytes();
    let mut i: usize = 0;
    proof {
        assert(x@.skip(0) =~= x@);
        assert(y@.skip(0) =~= y@);
    }
    while i < x.len() && i < y.len()
        invariant
            i <= x.len(),
            i <= y.len(),
            x@ == encode_utf8(a@),
            y@ == encode_utf8(b@),
            bytes_le(x@, y@) == bytes_le(x@.skip(i as int), y@.skip(i as int)),
        decreases x.len() - i,
    {
        proof {
            assert(x@.skip(i as int).drop_first() =~= x@.skip(i as int + 1));
            assert(y@.skip(i as int).drop_first() =~= y@.skip(i as int + 1));
        }
        if x[i] != y[i] {
            return x[i] < y[i];
        }
        i += 1;
    }
    i == x.len()
}

/// Names never decrease along the list.
pub open spec fn sorted_by_name(guests: Seq<Guest>) -> bool {
    forall|i: int, j: int|
        0 <= i < j < guests.len() ==> name_le(#[trigger] guests[i]@.name, #[trigger] guests[j]@.name)
}

/// `output` holds the guests of `input`, each exactly once, `origin[k]` being
/// the place in `input` of the guest at place `k` of `output`; and guests
/// with the same name stand in `output` in the order they had in `input`.
pub open spec fn stable_arrangement(input: Seq<Guest>, output: Seq<Guest>, origin: Seq<int>) -> bool {
    &&& output.len() == input.len()
    &&& origin.len() == input.len()
    &&& forall|k: int|
        0 <= k < output.len() ==> 0 <= #[trigger] origin[k] < input.len() && output[k]
            == input[origin[k]]
    &&& forall|i: int, j: int|
        0 <= i < j < output.len() ==> #[trigger] origin[i] != #[trigger] origin[j]
    &&& forall|i: int, j: int|
        0 <= i < j < output.len() && output[i]@.name == output[j]@.name ==> #[trigger] origin[i]
            < #[trigger] origin[j]
}

/// Every place of the input is the origin of some place of the output.
proof fn lemma_origins_cover(input: Seq<Guest>, output: Seq<Guest>, origin: Seq<int>, place: int)
    requires
        stable_arrangement(input, output, origin),
        0 <= place < input.len(),
    ensures
        exists|k: int| 0 <= k < origin.len() && origin[k] == place,
{
    let n = input.len() as int;
    let range = vstd::set_lib::set_int_range(0, n);
    assert(origin.no_duplicates());
    origin.unique_seq_to_set();
    vstd::set_lib::lemma_int_range(0, n);
    assert(origin.to_set().subset_of(range));
    vstd::set_lib::lemma_len_subset(origin.to_set(), range);
    vstd::set_lib::lemma_subset_equality(origin.to_set(), range);
    assert(origin.to_set().contains(place));
}

/// Two sorted stable arrangements of one input have the same origins up to
/// place `k`.
proof fn lemma_origins_agree(
    input: Seq<Guest>,
    a: Seq<Guest>,
    origin_a: Seq<int>,
    b: Seq<Guest>,
    origin_b: Seq<int>,
    k: int,
)
    requires
        sorted_by_name(a),
        stable_arrangement(input, a, origin_a),
        sorted_by_name(b),
        stable_arrangement(input, b, origin_b),
        0 <= k <= input.len(),
    ensures
        forall|m: int| 0 <= m < k ==> origin_a[m] == origin_b[m],
    decreases k,
{
    if k > 0 {
        lemma_origins_agree(input, a, origin_a, b, origin_b, k - 1);
        let x = origin_a[k - 1];
        let y = origin_b[k - 1];
        if x != y {
            lemma_origins_cover(input, b, origin_b, x);
            let m = choose|m: int| 0 <= m < origin_b.len() && origin_b[m] == x;
            lemma_origins_cover(input, a, origin_a, y);
            let w = choose|w: int| 0 <= w < origin_a.len() && origin_a[w] == y;
            lemma_name_le_antisymmetric(input[x]@.name, input[y]@.name);
        }
    }
}

/// There is one way only to sort a list by name and keep guests of the same
/// name in their order: two lists that both do are the same list.
pub proof fn lemma_stable_sort_is_unique(
    input: Seq<Guest>,
    a: Seq<Guest>,
    origin_a: Seq<int>,
    b: Seq<Guest>,
    origin_b: Seq<int>,
)
    requires
        sorted_by_name(a),
        stable_arrangement(input, a, origin_a),
        sorted_by_name(b),
        stable_arrangement(input, b, origin_b),
    ensures
        a == b,
        origin_a == origin_b,
{
    lemma_origins_agree(input, a, origin_a, b, origin_b, input.len() as int);
    assert forall|k: int| 0 <= k < a.len() implies a[k] == b[k] by {
        assert(b[k] == input[origin_b[k]]);
    }
}

/// The guests of both collections as one list: the virtual machines in
/// their order, then the containers in theirs.
pub open spec fn tagged(vms: Seq<VM>, lxc: Seq<LXC>) -> Seq<Guest> {
    Seq::new(
        vms.len() + lxc.len(),
        |i: int|
            if i < vms.len() {
                Guest::VM(vms[i])
            } else {
                Guest::LXC(lxc[i - vms.len()])
            },
    )
}

/// Tags each guest with its kind and joins the two collections.
pub fn tag_guests(vms: Vec<VM>, lxc: Vec<LXC>) -> (r: Vec<Guest>)
    ensures
        r@ == tagged(vms@, lxc@),
{
    let mut out: Vec<Guest> = Vec::new();
    let ghost all_vms = vms@;
    let ghost all_lxc = lxc@;
    for vm in it: vms
        invariant
            it.seq() == all_vms,
            out@.len() == it.index(),
            forall|k: int| 0 <= k < out@.len() ==> out@[k] == Guest::VM(all_vms[k]),
    {
        out.push(Guest::VM(vm));
    }
    for container in it: lxc
        invariant
            it.seq() == all_lxc,
            out@.len() == all_vms.len() + it.index(),
            forall|k: int| 0 <= k < all_vms.len() ==> out@[k] == Guest::VM(all_vms[k]),
            forall|k: int|
                all_vms.len() <= k < out@.len() ==> out@[k] == Guest::LXC(
                    all_lxc[k - all_vms.len()],
                ),
    {
        out.push(Guest::LXC(container));
    }
    out
}

/// Sorts guests by name. The sort is stable.
pub fn sort_by_name(guests: Vec<Guest>) -> (r: Vec<Guest>)
    ensures
        sorted_by_name(r@),
        exists|origin: Seq<int>| stable_arrangement(guests@, r@, origin),
{
    let ghost input = guests@;
    let mut rest = guests;
    let mut out: Vec<Guest> = Vec::new();
    let ghost mut origin: Seq<int> = Seq::empty();
    while rest.len() > 0
        invariant
            rest@.len() <= input.len(),
            rest@ == input.subrange(0, rest@.len() as int),
            out@.len() + rest@.len() == input.len(),
            origin.len() == out@.len(),
            forall|k: int|
                0 <= k < out@.len() ==> rest@.len() <= #[trigger] origin[k] < input.len()
                    && out@[k] == input[origin[k]],
            forall|i: int, j: int|
                0 <= i < j < out@.len() ==> #[trigger] origin[i] != #[trigger] origin[j],
            sorted_by_name(out@),
            forall|i: int, j: int|
                0 <= i < j < out@.len() && out@[i]@.name == out@[j]@.name ==> #[trigger] origin[i]
                    < #[trigger] origin[j],
        decreases rest@.len(),
    {
        let ghost before = out@;
        let ghost before_origin = origin;
        let g = rest.pop().unwrap();
        let ghost place = rest@.len() as int;
        let mut j: usize = 0;
        while j < out.len() && !name_no_later(g.name(), out[j].name())
            invariant
                j <= out.len(),
                out@ == before,
                forall|k: int| 0 <= k < j ==> !name_le(g@.name, #[trigger] out@[k]@.name),
            decreases out.len() - j,
        {
            j += 1;
        }
        proof {
            let key = encode_utf8(g@.name);
            assert forall|k: int| 0 <= k < j implies name_le(#[trigger] before[k]@.name, g@.name) by {
                lemma_bytes_le_total(key, encode_utf8(before[k]@.name));
            }
            assert forall|k: int| j <= k < before.len() implies name_le(
                g@.name,
                #[trigger] before[k]@.name,
            ) by {
                if k > j {
                    lemma_bytes_le_transitive(
                        key,
                        encode_utf8(before[j as int]@.name),
                        encode_utf8(before[k]@.name),
                    );
                }
            }
            assert forall|k: int| 0 <= k < j implies #[trigger] before[k]@.name != g@.name by {
                lemma_bytes_le_reflexive(key);
            }
        }
        out.insert(j, g);
        proof {
            origin = before_origin.insert(j as int, place);
        }
    }
    proof {
        assert(stable_arrangement(input, out@, origin));
    }
    out
}

/// A guest list in its order: sorted by name, guests of the same name in
/// the order in which they came in.
#[derive(Debug)]
pub struct NormalizedGuestList {
    guests: Vec<Guest>,
}

impl View for NormalizedGuestList {
    type V = Seq<Guest>;

    closed spec fn view(&self) -> Seq<Guest> {
        self.guests@
    }
}

impl NormalizedGuestList {
    #[verifier::type_invariant]
    closed spec fn ordered(self) -> bool {
        sorted_by_name(self.guests@)
    }

    /// Puts guests into their order.
    pub fn from_guests(guests: Vec<Guest>) -> (r: NormalizedGuestList)
        ensures
            sorted_by_name(r@),
            exists|origin: Seq<int>| stable_arrangement(guests@, r@, origin),
    {
        NormalizedGuestList { guests: sort_by_name(guests) }
    }

    /// The guests, in their order.
    pub fn guests(&self) -> (r: &Vec<Guest>)
        ensures
            r@ == self@,
            sorted_by_name(r@),
    {
        proof {
            use_type_invariant(self);
        }
        &self.guests
    }

    /// The guests, in their order.
    pub fn into_guests(self) -> (r: Vec<Guest>)
        ensures
            r@ == self@,
            sorted_by_name(r@),
    {
        proof {
            use_type_invariant(&self);
        }
        self.guests
    }

    /// The number of guests.
    pub fn len(&self) -> (r: usize)
        ensures
            r == self@.len(),
    {
        self.guests.len()
    }
}

/// The normalized guest list of a node: both collections tagged, merged
/// and sorted by name.
pub fn normalize(vms: Vec<VM>, lxc: Vec<LXC>) -> (r: NormalizedGuestList)
    ensures
        sorted_by_name(r@),
        exists|origin: Seq<int>| stable_arrangement(tagged(vms@, lxc@), r@, origin),
{
    NormalizedGuestList::from_guests(tag_guests(vms, lxc))
}

} // verus!
