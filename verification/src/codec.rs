//! The discovery message: the wire form of [`ModuleNeighborInfo`].
//!
//! A message is the JSON text of the externally tagged enum. It is written
//! compactly: a unit variant is its quoted name, `Hub` is `{"Hub":<hub>}`
//! and `Advanced` is `{"Advanced":[<hub or null>,<[] or null>]}`. It is read
//! as serde_json reads that enum: whitespace may stand between tokens, the
//! letters of a name may be written as `\uXXXX` escapes, and a unit variant
//! may also take the form `{"<name>":null}`.
use vstd::prelude::*;
use crate::discovery::{BasicTransmitter, HubIndex, ModuleNeighborInfo};

verus! {

/// `"`
pub open spec fn quote() -> Seq<u8> {
    seq![34u8]
}

/// `null`
pub open spec fn null_text() -> Seq<u8> {
    seq![110u8, 117, 108, 108]
}

/// `[]`
pub open spec fn empty_array_text() -> Seq<u8> {
    seq![91u8, 93]
}

/// A JSON string holding `name`, which needs no escaping.
pub open spec fn json_string(name: Seq<u8>) -> Seq<u8> {
    quote() + name + quote()
}

/// `NoNeighbor`
pub open spec fn no_neighbor_name() -> Seq<u8> {
    seq![78u8, 111, 78, 101, 105, 103, 104, 98, 111, 114]
}

/// `Basic`
pub open spec fn basic_name() -> Seq<u8> {
    seq![66u8, 97, 115, 105, 99]
}

/// `Hub`
pub open spec fn hub_name() -> Seq<u8> {
    seq![72u8, 117, 98]
}

/// `Advanced`
pub open spec fn advanced_name() -> Seq<u8> {
    seq![65u8, 100, 118, 97, 110, 99, 101, 100]
}

/// Wire form of an optional hub: its quoted name or `null`.
pub open spec fn optional_hub_text(h: Option<HubIndex>) -> Seq<u8> {
    match h {
        Some(i) => json_string(i.name()),
        None => null_text(),
    }
}

/// Wire form of an optional basic transmitter: `[]` or `null`.
pub open spec fn optional_basic_text(b: Option<BasicTransmitter>) -> Seq<u8> {
    match b {
        Some(_) => empty_array_text(),
        None => null_text(),
    }
}

impl ModuleNeighborInfo {
    /// The discovery message that carries this information.
    pub open spec fn encoding(self) -> Seq<u8> {
        match self {
            ModuleNeighborInfo::NoNeighbor => json_string(no_neighbor_name()),
            ModuleNeighborInfo::Basic => json_string(basic_name()),
            ModuleNeighborInfo::Hub(i) => seq![123u8] + json_string(hub_name()) + seq![58u8]
                + json_string(i.name()) + seq![125u8],
            ModuleNeighborInfo::Advanced(h, b) => seq![123u8] + json_string(advanced_name())
                + seq![58u8, 91] + optional_hub_text(h) + seq![44u8] + optional_basic_text(b)
                + seq![93u8, 125],
        }
    }
}


/// The hub whose name starts with the letters `a`, `b`.
spec fn hub_from_letters(a: u8, b: u8) -> HubIndex {
    if a == 79 {
        HubIndex::One
    } else if a == 84 && b == 119 {
        HubIndex::Two
    } else if a == 84 {
        HubIndex::Three
    } else {
        HubIndex::Four
    }
}

/// Reads back an encoding from a few distinguishing bytes.
spec fn read_back(b: Seq<u8>) -> ModuleNeighborInfo {
    if b[0] == 34 {
        if b.len() == 12 {
            ModuleNeighborInfo::NoNeighbor
        } else {
            ModuleNeighborInfo::Basic
        }
    } else if b[2] == 72 {
        ModuleNeighborInfo::Hub(hub_from_letters(b[8], b[9]))
    } else {
        let h = if b[13] == 110 {
            None
        } else {
            Some(hub_from_letters(b[14], b[15]))
        };
        let at = 14 + optional_hub_text(h).len() as int;
        ModuleNeighborInfo::Advanced(
            h,
            if b[at] == 110 {
                None
            } else {
                Some(BasicTransmitter())
            },
        )
    }
}

proof fn lemma_read_back(m: ModuleNeighborInfo)
    ensures
        read_back(m.encoding()) == m,
{
    let e = m.encoding();
    match m {
        ModuleNeighborInfo::NoNeighbor => {
            assert(e[0] == 34);
            assert(e.len() == 12);
        },
        ModuleNeighborInfo::Basic => {
            assert(e[0] == 34);
            assert(e.len() == 7);
        },
        ModuleNeighborInfo::Hub(i) => {
            assert(e[0] == 123);
            assert(e[2] == 72);
            assert(e[8] == i.name()[0]);
            assert(e[9] == i.name()[1]);
        },
        ModuleNeighborInfo::Advanced(h, b) => {
            let ht = optional_hub_text(h);
            let bt = optional_basic_text(b);
            assert(e[0] == 123);
            assert(e[2] == 65);
            assert(e[13] == ht[0]);
            match h {
                Some(i) => {
                    assert(e[14] == i.name()[0]);
                    assert(e[15] == i.name()[1]);
                },
                None => {},
            }
            assert(e[14 + ht.len() as int] == bt[0]);
            let r = read_back(e);
            assert(r matches ModuleNeighborInfo::Advanced(h2, _) && h2 == h);
            assert(r matches ModuleNeighborInfo::Advanced(_, b2) && b2 == b);
            assert(read_back(e) == m);
        },
    }
}

/// Distinct neighbour information gives distinct discovery messages.
pub proof fn lemma_encoding_injective(m1: ModuleNeighborInfo, m2: ModuleNeighborInfo)
    requires
        m1.encoding() == m2.encoding(),
    ensures
        m1 == m2,
{
    lemma_read_back(m1);
    lemma_read_back(m2);
}

/// JSON whitespace: space, line feed, tab, carriage return.
pub open spec fn is_json_whitespace(c: u8) -> bool {
    c == 32 || c == 10 || c == 9 || c == 13
}

/// The first position at or after `p` that holds no whitespace.
pub open spec fn skip_ws(b: Seq<u8>, p: int) -> int
    decreases b.len() - p,
{
    if 0 <= p < b.len() && is_json_whitespace(b[p]) {
        skip_ws(b, p + 1)
    } else {
        p
    }
}

/// Value of a hexadecimal digit, either case.
pub open spec fn hex_value(c: u8) -> Option<int> {
    if 48 <= c <= 57 {
        Some(c - 48)
    } else if 65 <= c <= 70 {
        Some(c - 55)
    } else if 97 <= c <= 102 {
        Some(c - 87)
    } else {
        None
    }
}

/// Value of the four hexadecimal digits at `p`, if they are there.
pub open spec fn hex4(b: Seq<u8>, p: int) -> Option<int> {
    if 0 <= p && p + 4 <= b.len() {
        match (hex_value(b[p]), hex_value(b[p + 1]), hex_value(b[p + 2]), hex_value(b[p + 3])) {
            (Some(x0), Some(x1), Some(x2), Some(x3)) => Some(((x0 * 16 + x1) * 16 + x2) * 16 + x3),
            _ => None,
        }
    } else {
        None
    }
}

/// An ASCII letter.
pub open spec fn is_letter(c: int) -> bool {
    (65 <= c <= 90) || (97 <= c <= 122)
}

/// The rest of a JSON string from `p` (after its opening quote) up to and
/// including the closing quote, when it reads as letters only: each letter
/// written as itself or as a `\uXXXX` escape. Returns the letters and the
/// position after the closing quote. Any other content (another character or
/// escape, a bad escape, no closing quote) names no variant.
pub open spec fn letters_at(b: Seq<u8>, p: int) -> Option<(Seq<u8>, int)>
    decreases b.len() - p,
{
    if !(0 <= p < b.len()) {
        None
    } else if b[p] == 34 {
        Some((Seq::<u8>::empty(), p + 1))
    } else if is_letter(b[p] as int) {
        match letters_at(b, p + 1) {
            Some((s, e)) => Some((seq![b[p]] + s, e)),
            None => None,
        }
    } else if b[p] == 92 && p + 1 < b.len() && b[p + 1] == 117 {
        match hex4(b, p + 2) {
            Some(v) => if is_letter(v) {
                match letters_at(b, p + 6) {
                    Some((s, e)) => Some((seq![v as u8] + s, e)),
                    None => None,
                }
            } else {
                None
            },
            None => None,
        }
    } else {
        None
    }
}

/// After optional whitespace, the byte `c`; returns the position after it.
pub open spec fn punct_at(b: Seq<u8>, p: int, c: u8) -> Option<int> {
    let q = skip_ws(b, p);
    if 0 <= q < b.len() && b[q] == c {
        Some(q + 1)
    } else {
        None
    }
}

/// After optional whitespace, `null`; returns the position after it.
pub open spec fn null_at(b: Seq<u8>, p: int) -> Option<int> {
    let q = skip_ws(b, p);
    if 0 <= q && q + 4 <= b.len() && b.subrange(q, q + 4) == null_text() {
        Some(q + 4)
    } else {
        None
    }
}

/// After optional whitespace, a JSON string of letters.
pub open spec fn tag_at(b: Seq<u8>, p: int) -> Option<(Seq<u8>, int)> {
    let q = skip_ws(b, p);
    if 0 <= q < b.len() && b[q] == 34 {
        letters_at(b, q + 1)
    } else {
        None
    }
}

/// The hub with the given variant name.
pub open spec fn hub_named(s: Seq<u8>) -> Option<HubIndex> {
    if s == HubIndex::One.name() {
        Some(HubIndex::One)
    } else if s == HubIndex::Two.name() {
        Some(HubIndex::Two)
    } else if s == HubIndex::Three.name() {
        Some(HubIndex::Three)
    } else if s == HubIndex::Four.name() {
        Some(HubIndex::Four)
    } else {
        None
    }
}

/// A hub: its quoted name, or `{"<name>":null}`.
pub open spec fn hub_at(b: Seq<u8>, p: int) -> Option<(HubIndex, int)> {
    let q = skip_ws(b, p);
    if !(0 <= q < b.len()) {
        None
    } else if b[q] == 34 {
        match letters_at(b, q + 1) {
            Some((s, e)) => match hub_named(s) {
                Some(h) => Some((h, e)),
                None => None,
            },
            None => None,
        }
    } else if b[q] == 123 {
        match tag_at(b, q + 1) {
            Some((s, e)) => match (hub_named(s), punct_at(b, e, 58)) {
                (Some(h), Some(c)) => match null_at(b, c) {
                    Some(n) => match punct_at(b, n, 125) {
                        Some(r) => Some((h, r)),
                        None => None,
                    },
                    None => None,
                },
                _ => None,
            },
            None => None,
        }
    } else {
        None
    }
}

/// An optional hub: `null` or a hub.
pub open spec fn optional_hub_at(b: Seq<u8>, p: int) -> Option<(Option<HubIndex>, int)> {
    match null_at(b, p) {
        Some(e) => Some((None, e)),
        None => match hub_at(b, p) {
            Some((h, e)) => Some((Some(h), e)),
            None => None,
        },
    }
}

/// An optional basic transmitter: `null` or an empty array.
pub open spec fn optional_basic_at(b: Seq<u8>, p: int) -> Option<(Option<BasicTransmitter>, int)> {
    match null_at(b, p) {
        Some(e) => Some((None, e)),
        None => match punct_at(b, p, 91) {
            Some(o) => match punct_at(b, o, 93) {
                Some(e) => Some((Some(BasicTransmitter()), e)),
                None => None,
            },
            None => None,
        },
    }
}

/// The content of `Advanced`: a two-element array.
pub open spec fn advanced_at(b: Seq<u8>, p: int) -> Option<(ModuleNeighborInfo, int)> {
    match punct_at(b, p, 91) {
        Some(o) => match optional_hub_at(b, o) {
            Some((h, e1)) => match punct_at(b, e1, 44) {
                Some(c) => match optional_basic_at(b, c) {
                    Some((t, e2)) => match punct_at(b, e2, 93) {
                        Some(e) => Some((ModuleNeighborInfo::Advanced(h, t), e)),
                        None => None,
                    },
                    None => None,
                },
                None => None,
            },
            None => None,
        },
        None => None,
    }
}

/// The value that follows `"<name>":` inside the braces of the tagged form.
pub open spec fn tagged_value_at(b: Seq<u8>, name: Seq<u8>, p: int) -> Option<(ModuleNeighborInfo, int)> {
    if name == no_neighbor_name() {
        match null_at(b, p) {
            Some(e) => Some((ModuleNeighborInfo::NoNeighbor, e)),
            None => None,
        }
    } else if name == basic_name() {
        match null_at(b, p) {
            Some(e) => Some((ModuleNeighborInfo::Basic, e)),
            None => None,
        }
    } else if name == hub_name() {
        match hub_at(b, p) {
            Some((h, e)) => Some((ModuleNeighborInfo::Hub(h), e)),
            None => None,
        }
    } else if name == advanced_name() {
        advanced_at(b, p)
    } else {
        None
    }
}

/// Neighbour information at `p`, as serde_json reads the externally tagged
/// enum: a unit variant as its quoted name, any variant as
/// `{"<name>":<value>}` (`null` for a unit variant), whitespace allowed
/// between all tokens.
pub open spec fn info_at(b: Seq<u8>, p: int) -> Option<(ModuleNeighborInfo, int)> {
    let q = skip_ws(b, p);
    if !(0 <= q < b.len()) {
        None
    } else if b[q] == 34 {
        match letters_at(b, q + 1) {
            Some((s, e)) => if s == no_neighbor_name() {
                Some((ModuleNeighborInfo::NoNeighbor, e))
            } else if s == basic_name() {
                Some((ModuleNeighborInfo::Basic, e))
            } else {
                None
            },
            None => None,
        }
    } else if b[q] == 123 {
        match tag_at(b, q + 1) {
            Some((s, e)) => match punct_at(b, e, 58) {
                Some(c) => match tagged_value_at(b, s, c) {
                    Some((i, v)) => match punct_at(b, v, 125) {
                        Some(r) => Some((i, r)),
                        None => None,
                    },
                    None => None,
                },
                None => None,
            },
            None => None,
        }
    } else {
        None
    }
}

/// What reading the message `m` gives: neighbour information followed by
/// nothing but whitespace, or an error.
pub open spec fn decode_message(m: Seq<u8>) -> Result<ModuleNeighborInfo, ()> {
    match info_at(m, 0) {
        Some((i, e)) => if skip_ws(m, e) == m.len() {
            Ok(i)
        } else {
            Err(())
        },
        None => Err(()),
    }
}

fn hub_name_bytes(h: HubIndex) -> (r: Vec<u8>)
    ensures
        r@ == h.name(),
{
    let r: Vec<u8> = match h {
        HubIndex::One => vec![79u8, 110, 101],
        HubIndex::Two => vec![84u8, 119, 111],
        HubIndex::Three => vec![84u8, 104, 114, 101, 101],
        HubIndex::Four => vec![70u8, 111, 117, 114],
    };
    assert(r@ =~= h.name());
    r
}

fn quoted_hub_bytes(h: HubIndex) -> (r: Vec<u8>)
    ensures
        r@ == json_string(h.name()),
{
    let mut r: Vec<u8> = vec![34u8];
    let mut name = hub_name_bytes(h);
    r.append(&mut name);
    r.push(34u8);
    assert(r@ =~= json_string(h.name()));
    r
}

/// Appends `bytes` to `out`.
fn append_bytes(out: &mut Vec<u8>, bytes: &[u8])
    ensures
        final(out)@ == old(out)@ + bytes@,
{
    let n = bytes.len();
    let mut k: usize = 0;
    while k < n
        invariant
            n == bytes@.len(),
            k <= n,
            out@ == old(out)@ + bytes@.subrange(0, k as int),
        decreases n - k,
    {
        out.push(bytes[k]);
        k = k + 1;
        assert(bytes@.subrange(0, k as int) =~= bytes@.subrange(0, (k - 1) as int).push(bytes@[k - 1]));
    }
    assert(bytes@.subrange(0, n as int) =~= bytes@);
}

/// Whether two byte strings are equal.
fn bytes_equal(a: &[u8], b: &[u8]) -> (r: bool)
    ensures
        r == (a@ == b@),
{
    if a.len() != b.len() {
        return false;
    }
    let n = a.len();
    let mut k: usize = 0;
    while k < n
        invariant
            n == a@.len(),
            n == b@.len(),
            k <= n,
            forall|j: int| 0 <= j < k ==> a@[j] == b@[j],
        decreases n - k,
    {
        if a[k] != b[k] {
            return false;
        }
        k = k + 1;
    }
    assert(a@ =~= b@);
    true
}

impl ModuleNeighborInfo {
    /// The discovery message that carries this information.
    pub fn into_vec(self) -> (r: Vec<u8>)
        ensures
            r@ == self.encoding(),
    {
        let mut r: Vec<u8>;
        match self {
            ModuleNeighborInfo::NoNeighbor => {
                r = vec![34u8, 78, 111, 78, 101, 105, 103, 104, 98, 111, 114, 34];
            },
            ModuleNeighborInfo::Basic => {
                r = vec![34u8, 66, 97, 115, 105, 99, 34];
            },
            ModuleNeighborInfo::Hub(i) => {
                r = vec![123u8, 34, 72, 117, 98, 34, 58];
                let mut h = quoted_hub_bytes(i);
                r.append(&mut h);
                r.push(125u8);
            },
            ModuleNeighborInfo::Advanced(h, b) => {
                r = vec![123u8, 34, 65, 100, 118, 97, 110, 99, 101, 100, 34, 58, 91];
                match h {
                    Some(i) => {
                        let mut q = quoted_hub_bytes(i);
                        r.append(&mut q);
                    },
                    None => {
                        append_bytes(&mut r, &[110u8, 117, 108, 108]);
                    },
                }
                r.push(44u8);
                match b {
                    Some(_) => {
                        append_bytes(&mut r, &[91u8, 93]);
                    },
                    None => {
                        append_bytes(&mut r, &[110u8, 117, 108, 108]);
                    },
                }
                r.push(93u8);
                r.push(125u8);
            },
        }
        assert(r@ =~= self.encoding());
        r
    }
}

proof fn lemma_letters_of(b: Seq<u8>, p: int, name: Seq<u8>)
    requires
        0 <= p,
        p + name.len() < b.len(),
        forall|k: int| 0 <= k < name.len() ==> is_letter(name[k] as int),
        forall|k: int| 0 <= k < name.len() ==> #[trigger] b[p + k] == name[k],
        b[p + name.len()] == 34,
    ensures
        letters_at(b, p) == Some((name, p + name.len() + 1)),
    decreases name.len(),
{
    if name.len() == 0 {
        assert(b[p + 0] == 34);
    } else {
        let rest = name.drop_first();
        assert forall|k: int| 0 <= k < rest.len() implies #[trigger] b[p + 1 + k] == rest[k] by {
            assert(b[p + (k + 1)] == name[k + 1]);
        }
        assert forall|k: int| 0 <= k < rest.len() implies is_letter(rest[k] as int) by {
            assert(is_letter(name[k + 1] as int));
        }
        lemma_letters_of(b, p + 1, rest);
        assert(b[p + 0] == name[0]);
        assert(is_letter(name[0] as int));
        assert(seq![b[p]] + rest =~= name);
    }
}

/// The quoted name at `p` reads back as that name.
proof fn lemma_string_of(b: Seq<u8>, p: int, name: Seq<u8>)
    requires
        0 <= p,
        p + name.len() + 2 <= b.len(),
        forall|k: int| 0 <= k < name.len() ==> is_letter(name[k] as int),
        b.subrange(p, p + name.len() + 2) == json_string(name),
    ensures
        b[p] == 34,
        letters_at(b, p + 1) == Some((name, p + name.len() + 2)),
{
    let j = json_string(name);
    assert(b[p] == b.subrange(p, p + name.len() + 2)[0]);
    assert forall|k: int| 0 <= k < name.len() implies #[trigger] b[p + 1 + k] == name[k] by {
        assert(b[p + 1 + k] == b.subrange(p, p + name.len() + 2)[1 + k]);
        assert(j[1 + k] == name[k]);
    }
    assert(b[p + 1 + name.len()] == b.subrange(p, p + name.len() + 2)[1 + name.len() as int]);
    lemma_letters_of(b, p + 1, name);
}

proof fn lemma_names_are_letters()
    ensures
        forall|k: int| 0 <= k < no_neighbor_name().len() ==> is_letter(no_neighbor_name()[k] as int),
        forall|k: int| 0 <= k < basic_name().len() ==> is_letter(basic_name()[k] as int),
        forall|k: int| 0 <= k < hub_name().len() ==> is_letter(hub_name()[k] as int),
        forall|k: int| 0 <= k < advanced_name().len() ==> is_letter(advanced_name()[k] as int),
        forall|h: HubIndex, k: int| 0 <= k < h.name().len() ==> is_letter(#[trigger] h.name()[k] as int),
{
}

proof fn lemma_hub_named(h: HubIndex)
    ensures
        hub_named(h.name()) == Some(h),
{
    match h {
        HubIndex::One => {},
        HubIndex::Two => {
            assert(HubIndex::Two.name()[0] != HubIndex::One.name()[0]);
        },
        HubIndex::Three => {
            assert(HubIndex::Three.name().len() != HubIndex::One.name().len());
            assert(HubIndex::Three.name().len() != HubIndex::Two.name().len());
        },
        HubIndex::Four => {
            assert(HubIndex::Four.name().len() != HubIndex::One.name().len());
            assert(HubIndex::Four.name().len() != HubIndex::Two.name().len());
            assert(HubIndex::Four.name().len() != HubIndex::Three.name().len());
        },
    }
}

proof fn lemma_decode_unit(i: ModuleNeighborInfo, name: Seq<u8>)
    requires
        (i == ModuleNeighborInfo::NoNeighbor && name == no_neighbor_name()) || (i == ModuleNeighborInfo::Basic
            && name == basic_name()),
    ensures
        info_at(i.encoding(), 0) == Some((i, name.len() + 2int)),
        i.encoding().len() == name.len() + 2,
{
    lemma_names_are_letters();
    let e = i.encoding();
    assert(e.subrange(0, name.len() + 2int) =~= json_string(name));
    lemma_string_of(e, 0, name);
    assert(no_neighbor_name().len() != basic_name().len());
}

#[verifier::rlimit(30)]
proof fn lemma_decode_hub(x: HubIndex)
    ensures
        info_at(ModuleNeighborInfo::Hub(x).encoding(), 0) == Some((ModuleNeighborInfo::Hub(x), ModuleNeighborInfo::Hub(x).encoding().len() as int)),
{
    lemma_names_are_letters();
    let i = ModuleNeighborInfo::Hub(x);
    let e = i.encoding();
    let n = x.name().len() as int;
    assert(e.subrange(1, 6) =~= json_string(hub_name()));
    lemma_string_of(e, 1, hub_name());
    assert(e.subrange(7, 9 + n) =~= json_string(x.name()));
    lemma_string_of(e, 7, x.name());
    lemma_hub_named(x);
    assert(e[0] == 123);
    assert(e[6] == 58);
    assert(e[9 + n] == 125);
    assert(e.len() == 10 + n);
    assert(tag_at(e, 1) == Some((hub_name(), 6int)));
    assert(punct_at(e, 6, 58) == Some(7int));
    assert(hub_at(e, 7) == Some((x, 9 + n)));
    assert(hub_name() != no_neighbor_name() && hub_name() != basic_name()) by {
        assert(hub_name().len() != no_neighbor_name().len());
        assert(hub_name().len() != basic_name().len());
    }
    assert(tagged_value_at(e, hub_name(), 7) == Some((i, 9 + n)));
    assert(punct_at(e, 9 + n, 125) == Some(10 + n));
}

#[verifier::rlimit(30)]
proof fn lemma_decode_optional_hub(e: Seq<u8>, p: int, h: Option<HubIndex>)
    requires
        0 <= p,
        p + optional_hub_text(h).len() < e.len(),
        e.subrange(p, p + optional_hub_text(h).len()) == optional_hub_text(h),
    ensures
        optional_hub_at(e, p) == Some((h, p + optional_hub_text(h).len())),
{
    lemma_names_are_letters();
    match h {
        None => {
            assert(e[p] == 110);
        },
        Some(x) => {
            let n = x.name().len() as int;
            lemma_string_of(e, p, x.name());
            lemma_hub_named(x);
            assert(e.subrange(p, p + 4)[0] == e[p]);
            assert(null_at(e, p) is None);
            assert(hub_at(e, p) == Some((x, p + 2 + n)));
        },
    }
}

#[verifier::rlimit(30)]
proof fn lemma_decode_optional_basic(e: Seq<u8>, p: int, t: Option<BasicTransmitter>)
    requires
        0 <= p,
        p + optional_basic_text(t).len() < e.len(),
        e.subrange(p, p + optional_basic_text(t).len()) == optional_basic_text(t),
    ensures
        optional_basic_at(e, p) == Some((t, p + optional_basic_text(t).len())),
{
    match t {
        None => {
            assert(e[p] == 110);
        },
        Some(bt) => {
            assert(e[p] == e.subrange(p, p + 2)[0]);
            assert(e[p + 1] == e.subrange(p, p + 2)[1]);
            if p + 4 <= e.len() {
                assert(e.subrange(p, p + 4)[0] == e[p]);
            }
            assert(null_at(e, p) is None);
            assert(bt == BasicTransmitter());
        },
    }
}

#[verifier::rlimit(30)]
proof fn lemma_advanced_body(e: Seq<u8>, p: int, h: Option<HubIndex>, t: Option<BasicTransmitter>)
    requires
        0 <= p,
        p + 3 + optional_hub_text(h).len() + optional_basic_text(t).len() < e.len(),
        e[p] == 91,
        e.subrange(p + 1, p + 1 + optional_hub_text(h).len()) == optional_hub_text(h),
        e[p + 1 + optional_hub_text(h).len()] == 44,
        e.subrange(p + 2 + optional_hub_text(h).len(), p + 2 + optional_hub_text(h).len()
            + optional_basic_text(t).len()) == optional_basic_text(t),
        e[p + 2 + optional_hub_text(h).len() + optional_basic_text(t).len()] == 93,
    ensures
        advanced_at(e, p) == Some((
            ModuleNeighborInfo::Advanced(h, t),
            p + 3 + optional_hub_text(h).len() + optional_basic_text(t).len(),
        )),
{
    let hl = optional_hub_text(h).len() as int;
    let tl = optional_basic_text(t).len() as int;
    lemma_decode_optional_hub(e, p + 1, h);
    lemma_decode_optional_basic(e, p + 2 + hl, t);
    assert(punct_at(e, p, 91) == Some(p + 1));
    assert(punct_at(e, p + 1 + hl, 44) == Some(p + 2 + hl));
    assert(punct_at(e, p + 2 + hl + tl, 93) == Some(p + 3 + hl + tl));
}

proof fn lemma_tagged_form(e: Seq<u8>, name: Seq<u8>, i: ModuleNeighborInfo, v: int)
    requires
        e.len() > 1,
        e[0] == 123,
        tag_at(e, 1) == Some((name, 1 + name.len() as int + 2)),
        e[1 + name.len() as int + 2] == 58,
        tagged_value_at(e, name, 1 + name.len() as int + 3) == Some((i, v)),
        0 <= v < e.len(),
        e[v] == 125,
    ensures
        info_at(e, 0) == Some((i, v + 1)),
{
    assert(punct_at(e, 1 + name.len() as int + 2, 58) == Some(1 + name.len() as int + 3));
    assert(punct_at(e, v, 125) == Some(v + 1));
}

proof fn lemma_tagged_advanced(e: Seq<u8>, p: int)
    ensures
        tagged_value_at(e, advanced_name(), p) == advanced_at(e, p),
{
    assert(advanced_name().len() != no_neighbor_name().len());
    assert(advanced_name().len() != basic_name().len());
    assert(advanced_name().len() != hub_name().len());
}

#[verifier::rlimit(30)]
proof fn lemma_decode_advanced(h: Option<HubIndex>, t: Option<BasicTransmitter>)
    ensures
        info_at(ModuleNeighborInfo::Advanced(h, t).encoding(), 0) == Some((
            ModuleNeighborInfo::Advanced(h, t),
            ModuleNeighborInfo::Advanced(h, t).encoding().len() as int,
        )),
{
    let i = ModuleNeighborInfo::Advanced(h, t);
    let e = i.encoding();
    let ht = optional_hub_text(h);
    let tt = optional_basic_text(t);
    let hl = ht.len() as int;
    let tl = tt.len() as int;
    assert(e.len() == 16 + hl + tl);
    assert(tag_at(e, 1) == Some((advanced_name(), 11int))) by {
        lemma_names_are_letters();
        assert(e.subrange(1, 11) =~= json_string(advanced_name()));
        lemma_string_of(e, 1, advanced_name());
        assert(skip_ws(e, 1) == 1);
    }
    assert(advanced_at(e, 12) == Some((i, 15 + hl + tl))) by {
        assert(e.subrange(13, 13 + hl) =~= ht);
        assert(e.subrange(14 + hl, 14 + hl + tl) =~= tt);
        lemma_advanced_body(e, 12, h, t);
    }
    lemma_tagged_advanced(e, 12);
    lemma_tagged_form(e, advanced_name(), i, 15 + hl + tl);
}

/// Reading a discovery message gives back exactly the information written.
pub proof fn lemma_decode_encoding(i: ModuleNeighborInfo)
    ensures
        decode_message(i.encoding()) == Ok::<ModuleNeighborInfo, ()>(i),
{
    match i {
        ModuleNeighborInfo::NoNeighbor => lemma_decode_unit(i, no_neighbor_name()),
        ModuleNeighborInfo::Basic => lemma_decode_unit(i, basic_name()),
        ModuleNeighborInfo::Hub(x) => lemma_decode_hub(x),
        ModuleNeighborInfo::Advanced(h, t) => lemma_decode_advanced(h, t),
    }
    assert(skip_ws(i.encoding(), i.encoding().len() as int) == i.encoding().len());
}

/// First position at or after `p` that holds no whitespace.
fn skip_ws_exec(b: &[u8], p: usize) -> (r: usize)
    requires
        p <= b@.len(),
    ensures
        r == skip_ws(b@, p as int),
        p <= r <= b@.len(),
{
    let mut q = p;
    while q < b.len() && (b[q] == 32 || b[q] == 10 || b[q] == 9 || b[q] == 13)
        invariant
            p <= q <= b@.len(),
            skip_ws(b@, q as int) == skip_ws(b@, p as int),
        decreases b@.len() - q,
    {
        q = q + 1;
    }
    q
}

/// Value of a hexadecimal digit.
fn hex_value_exec(c: u8) -> (r: Option<u32>)
    ensures
        match r {
            Some(v) => hex_value(c) == Some(v as int) && v < 16,
            None => hex_value(c) is None,
        },
{
    if 48 <= c && c <= 57 {
        Some((c - 48) as u32)
    } else if 65 <= c && c <= 70 {
        Some((c - 55) as u32)
    } else if 97 <= c && c <= 102 {
        Some((c - 87) as u32)
    } else {
        None
    }
}

/// Value of the four hexadecimal digits at `p`.
fn hex4_exec(b: &[u8], p: usize) -> (r: Option<u32>)
    ensures
        match r {
            Some(v) => hex4(b@, p as int) == Some(v as int),
            None => hex4(b@, p as int) is None,
        },
{
    if p > b.len() || b.len() - p < 4 {
        return None;
    }
    match (hex_value_exec(b[p]), hex_value_exec(b[p + 1]), hex_value_exec(b[p + 2]), hex_value_exec(b[p + 3])) {
        (Some(x0), Some(x1), Some(x2), Some(x3)) => Some(((x0 * 16 + x1) * 16 + x2) * 16 + x3),
        _ => None,
    }
}

/// Whether `c` is an ASCII letter.
fn is_letter_exec(c: u32) -> (r: bool)
    ensures
        r == is_letter(c as int),
{
    (65 <= c && c <= 90) || (97 <= c && c <= 122)
}

/// Reads the letters of a JSON string whose opening quote is before `p`.
fn letters_exec(b: &[u8], p: usize) -> (r: Option<(Vec<u8>, usize)>)
    requires
        p <= b@.len(),
    ensures
        match r {
            Some((s, e)) => letters_at(b@, p as int) == Some((s@, e as int)) && e <= b@.len(),
            None => letters_at(b@, p as int) is None,
        },
{
    let mut acc: Vec<u8> = Vec::new();
    let mut q = p;
    loop
        invariant
            p <= q <= b@.len(),
            letters_at(b@, p as int) == match letters_at(b@, q as int) {
                Some((s, e)) => Some((acc@ + s, e)),
                None => None::<(Seq<u8>, int)>,
            },
        decreases b@.len() - q,
    {
        if q >= b.len() {
            return None;
        }
        let c = b[q];
        if c == 34 {
            assert(acc@ + Seq::<u8>::empty() =~= acc@);
            return Some((acc, q + 1));
        } else if is_letter_exec(c as u32) {
            proof {
                match letters_at(b@, q + 1) {
                    Some((s, e)) => {
                        assert(acc@ + (seq![c] + s) =~= acc@.push(c) + s);
                    },
                    None => {},
                }
            }
            acc.push(c);
            q = q + 1;
        } else if c == 92 && q + 1 < b.len() && b[q + 1] == 117 {
            match hex4_exec(b, q + 2) {
                Some(v) => {
                    if !is_letter_exec(v) {
                        return None;
                    }
                    let ch = v as u8;
                    proof {
                        match letters_at(b@, q + 6) {
                            Some((s, e)) => {
                                assert(acc@ + (seq![v as u8] + s) =~= acc@.push(ch) + s);
                            },
                            None => {},
                        }
                    }
                    acc.push(ch);
                    q = q + 6;
                },
                None => {
                    return None;
                },
            }
        } else {
            return None;
        }
    }
}

/// After optional whitespace, the byte `c`.
fn punct_exec(b: &[u8], p: usize, c: u8) -> (r: Option<usize>)
    requires
        p <= b@.len(),
    ensures
        match r {
            Some(e) => punct_at(b@, p as int, c) == Some(e as int) && e <= b@.len(),
            None => punct_at(b@, p as int, c) is None,
        },
{
    let q = skip_ws_exec(b, p);
    if q < b.len() && b[q] == c {
        Some(q + 1)
    } else {
        None
    }
}

/// After optional whitespace, `null`.
fn null_exec(b: &[u8], p: usize) -> (r: Option<usize>)
    requires
        p <= b@.len(),
    ensures
        match r {
            Some(e) => null_at(b@, p as int) == Some(e as int) && e <= b@.len(),
            None => null_at(b@, p as int) is None,
        },
{
    let q = skip_ws_exec(b, p);
    if b.len() - q >= 4 && b[q] == 110 && b[q + 1] == 117 && b[q + 2] == 108 && b[q + 3] == 108 {
        assert(b@.subrange(q as int, q + 4) =~= null_text());
        Some(q + 4)
    } else {
        proof {
            if 0 <= q && q + 4 <= b@.len() && b@.subrange(q as int, q + 4) == null_text() {
                assert(b@.subrange(q as int, q + 4)[0] == b@[q as int]);
                assert(b@.subrange(q as int, q + 4)[1] == b@[q + 1]);
                assert(b@.subrange(q as int, q + 4)[2] == b@[q + 2]);
                assert(b@.subrange(q as int, q + 4)[3] == b@[q + 3]);
            }
        }
        None
    }
}

/// After optional whitespace, a JSON string of letters.
fn tag_exec(b: &[u8], p: usize) -> (r: Option<(Vec<u8>, usize)>)
    requires
        p <= b@.len(),
    ensures
        match r {
            Some((s, e)) => tag_at(b@, p as int) == Some((s@, e as int)) && e <= b@.len(),
            None => tag_at(b@, p as int) is None,
        },
{
    let q = skip_ws_exec(b, p);
    if q < b.len() && b[q] == 34 {
        letters_exec(b, q + 1)
    } else {
        None
    }
}

/// The hub with the given variant name.
fn hub_named_exec(s: &[u8]) -> (r: Option<HubIndex>)
    ensures
        r == hub_named(s@),
{
    let one = hub_name_bytes(HubIndex::One);
    let two = hub_name_bytes(HubIndex::Two);
    let three = hub_name_bytes(HubIndex::Three);
    let four = hub_name_bytes(HubIndex::Four);
    if bytes_equal(s, one.as_slice()) {
        Some(HubIndex::One)
    } else if bytes_equal(s, two.as_slice()) {
        Some(HubIndex::Two)
    } else if bytes_equal(s, three.as_slice()) {
        Some(HubIndex::Three)
    } else if bytes_equal(s, four.as_slice()) {
        Some(HubIndex::Four)
    } else {
        None
    }
}

/// A hub: its quoted name, or `{"<name>":null}`.
fn hub_exec(b: &[u8], p: usize) -> (r: Option<(HubIndex, usize)>)
    requires
        p <= b@.len(),
    ensures
        match r {
            Some((h, e)) => hub_at(b@, p as int) == Some((h, e as int)) && e <= b@.len(),
            None => hub_at(b@, p as int) is None,
        },
{
    let q = skip_ws_exec(b, p);
    if q >= b.len() {
        return None;
    }
    if b[q] == 34 {
        match letters_exec(b, q + 1) {
            Some((s, e)) => match hub_named_exec(s.as_slice()) {
                Some(h) => Some((h, e)),
                None => None,
            },
            None => None,
        }
    } else if b[q] == 123 {
        match tag_exec(b, q + 1) {
            Some((s, e)) => match (hub_named_exec(s.as_slice()), punct_exec(b, e, 58)) {
                (Some(h), Some(c)) => match null_exec(b, c) {
                    Some(n) => match punct_exec(b, n, 125) {
                        Some(r) => Some((h, r)),
                        None => None,
                    },
                    None => None,
                },
                _ => None,
            },
            None => None,
        }
    } else {
        None
    }
}

/// An optional hub: `null` or a hub.
fn optional_hub_exec(b: &[u8], p: usize) -> (r: Option<(Option<HubIndex>, usize)>)
    requires
        p <= b@.len(),
    ensures
        match r {
            Some((h, e)) => optional_hub_at(b@, p as int) == Some((h, e as int)) && e <= b@.len(),
            None => optional_hub_at(b@, p as int) is None,
        },
{
    match null_exec(b, p) {
        Some(e) => Some((None, e)),
        None => match hub_exec(b, p) {
            Some((h, e)) => Some((Some(h), e)),
            None => None,
        },
    }
}

/// An optional basic transmitter: `null` or an empty array.
fn optional_basic_exec(b: &[u8], p: usize) -> (r: Option<(Option<BasicTransmitter>, usize)>)
    requires
        p <= b@.len(),
    ensures
        match r {
            Some((t, e)) => optional_basic_at(b@, p as int) == Some((t, e as int)) && e <= b@.len(),
            None => optional_basic_at(b@, p as int) is None,
        },
{
    match null_exec(b, p) {
        Some(e) => Some((None, e)),
        None => match punct_exec(b, p, 91) {
            Some(o) => match punct_exec(b, o, 93) {
                Some(e) => Some((Some(BasicTransmitter()), e)),
                None => None,
            },
            None => None,
        },
    }
}

/// The content of `Advanced`: a two-element array.
fn advanced_exec(b: &[u8], p: usize) -> (r: Option<(ModuleNeighborInfo, usize)>)
    requires
        p <= b@.len(),
    ensures
        match r {
            Some((i, e)) => advanced_at(b@, p as int) == Some((i, e as int)) && e <= b@.len(),
            None => advanced_at(b@, p as int) is None,
        },
{
    let o = match punct_exec(b, p, 91) {
        Some(o) => o,
        None => return None,
    };
    let (h, e1) = match optional_hub_exec(b, o) {
        Some(x) => x,
        None => return None,
    };
    let c = match punct_exec(b, e1, 44) {
        Some(c) => c,
        None => return None,
    };
    let (t, e2) = match optional_basic_exec(b, c) {
        Some(x) => x,
        None => return None,
    };
    match punct_exec(b, e2, 93) {
        Some(e) => Some((ModuleNeighborInfo::Advanced(h, t), e)),
        None => None,
    }
}

/// The value that follows `"<name>":` in the tagged form.
fn tagged_value_exec(b: &[u8], name: &[u8], p: usize) -> (r: Option<(ModuleNeighborInfo, usize)>)
    requires
        p <= b@.len(),
    ensures
        match r {
            Some((i, e)) => tagged_value_at(b@, name@, p as int) == Some((i, e as int)) && e <= b@.len(),
            None => tagged_value_at(b@, name@, p as int) is None,
        },
{
    let no_neighbor: Vec<u8> = vec![78u8, 111, 78, 101, 105, 103, 104, 98, 111, 114];
    let basic: Vec<u8> = vec![66u8, 97, 115, 105, 99];
    let hub: Vec<u8> = vec![72u8, 117, 98];
    let advanced: Vec<u8> = vec![65u8, 100, 118, 97, 110, 99, 101, 100];
    assert(no_neighbor@ =~= no_neighbor_name());
    assert(basic@ =~= basic_name());
    assert(hub@ =~= hub_name());
    assert(advanced@ =~= advanced_name());
    if bytes_equal(name, no_neighbor.as_slice()) {
        match null_exec(b, p) {
            Some(e) => Some((ModuleNeighborInfo::NoNeighbor, e)),
            None => None,
        }
    } else if bytes_equal(name, basic.as_slice()) {
        match null_exec(b, p) {
            Some(e) => Some((ModuleNeighborInfo::Basic, e)),
            None => None,
        }
    } else if bytes_equal(name, hub.as_slice()) {
        match hub_exec(b, p) {
            Some((h, e)) => Some((ModuleNeighborInfo::Hub(h), e)),
            None => None,
        }
    } else if bytes_equal(name, advanced.as_slice()) {
        advanced_exec(b, p)
    } else {
        None
    }
}

/// Neighbour information at `p`.
fn info_exec(b: &[u8], p: usize) -> (r: Option<(ModuleNeighborInfo, usize)>)
    requires
        p <= b@.len(),
    ensures
        match r {
            Some((i, e)) => info_at(b@, p as int) == Some((i, e as int)) && e <= b@.len(),
            None => info_at(b@, p as int) is None,
        },
{
    let no_neighbor: Vec<u8> = vec![78u8, 111, 78, 101, 105, 103, 104, 98, 111, 114];
    let basic: Vec<u8> = vec![66u8, 97, 115, 105, 99];
    assert(no_neighbor@ =~= no_neighbor_name());
    assert(basic@ =~= basic_name());
    let q = skip_ws_exec(b, p);
    if q >= b.len() {
        return None;
    }
    if b[q] == 34 {
        match letters_exec(b, q + 1) {
            Some((s, e)) => if bytes_equal(s.as_slice(), no_neighbor.as_slice()) {
                Some((ModuleNeighborInfo::NoNeighbor, e))
            } else if bytes_equal(s.as_slice(), basic.as_slice()) {
                Some((ModuleNeighborInfo::Basic, e))
            } else {
                None
            },
            None => None,
        }
    } else if b[q] == 123 {
        let (s, e) = match tag_exec(b, q + 1) {
            Some(x) => x,
            None => return None,
        };
        let c = match punct_exec(b, e, 58) {
            Some(c) => c,
            None => return None,
        };
        let (i, v) = match tagged_value_exec(b, s.as_slice(), c) {
            Some(x) => x,
            None => return None,
        };
        match punct_exec(b, v, 125) {
            Some(r) => Some((i, r)),
            None => None,
        }
    } else {
        None
    }
}

/// Reads a discovery message as serde_json reads the enum: JSON whitespace
/// may surround every token, names may use `\u` escapes, and unit variants
/// may also take the form `{"<name>":null}`.
pub fn parse_discovery_message(m: &[u8]) -> (r: Result<ModuleNeighborInfo, ()>)
    ensures
        r == decode_message(m@),
{
    match info_exec(m, 0) {
        Some((i, e)) => if skip_ws_exec(m, e) == m.len() {
            Ok(i)
        } else {
            Err(())
        },
        None => Err(()),
    }
}

} // verus!
