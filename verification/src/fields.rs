//! Decoding of the journal's native field buffers.
//!
//! Each buffer an entry hands out is a byte string of the shape
//! `KEY=value`: the bytes before the first equals sign name the field, the
//! bytes after it are its value. A buffer without an equals sign carries no
//! field and is skipped.

use vstd::prelude::*;

verus! {

/// The byte that separates a field's key from its value.
pub open spec fn eq_byte() -> u8 {
    61
}

/// Position `i` holds the first equals sign of `s`.
pub open spec fn is_first_eq(s: Seq<u8>, i: int) -> bool {
    &&& 0 <= i < s.len()
    &&& s[i] == eq_byte()
    &&& forall|j: int| 0 <= j < i ==> s[j] != eq_byte()
}

/// The buffer holds an equals sign somewhere.
pub open spec fn has_eq(s: Seq<u8>) -> bool {
    exists|i: int| is_first_eq(s, i)
}

/// The position of the first equals sign (meaningful only when `has_eq`).
pub open spec fn first_eq(s: Seq<u8>) -> int {
    choose|i: int| is_first_eq(s, i)
}

/// The key of a buffer that holds an equals sign: everything before it.
pub open spec fn field_key(s: Seq<u8>) -> Seq<u8> {
    s.subrange(0, first_eq(s))
}

/// The value of a buffer that holds an equals sign: everything after it.
pub open spec fn field_value(s: Seq<u8>) -> Seq<u8> {
    s.subrange(first_eq(s) + 1, s.len() as int)
}

/// At most one position is the first equals sign.
proof fn lemma_first_eq_unique(s: Seq<u8>, i: int)
    requires
        is_first_eq(s, i),
    ensures
        first_eq(s) == i,
{
    let k = first_eq(s);
    assert(is_first_eq(s, k));
    if k < i {
        assert(s[k] != eq_byte());
    }
    if i < k {
        assert(s[i] != eq_byte());
    }
}

/// Finds the first equals sign in a buffer, if there is one.
pub fn find_eq(data: &[u8]) -> (r: Option<usize>)
    ensures
        match r {
            Some(i) => is_first_eq(data@, i as int),
            None => !has_eq(data@),
        },
{
    let mut k: usize = 0;
    while k < data.len()
        invariant
            k <= data@.len(),
            forall|j: int| 0 <= j < k ==> data@[j] != eq_byte(),
        decreases data@.len() - k,
    {
        if data[k] == 61 {
            return Some(k);
        }
        k += 1;
    }
    None
}

/// Copies `data[from..to]` into a fresh buffer.
fn copy_range(data: &[u8], from: usize, to: usize) -> (out: Vec<u8>)
    requires
        from <= to <= data@.len(),
    ensures
        out@ == data@.subrange(from as int, to as int),
{
    let mut out: Vec<u8> = Vec::new();
    let mut k: usize = from;
    while k < to
        invariant
            from <= k <= to <= data@.len(),
            out@ == data@.subrange(from as int, k as int),
        decreases to - k,
    {
        out.push(data[k]);
        k += 1;
        proof {
            assert(out@ =~= data@.subrange(from as int, k as int));
        }
    }
    out
}

/// Splits a native field buffer at its first equals sign into key and
/// value. A buffer without an equals sign carries no field: `None`.
pub fn split_field(data: &[u8]) -> (r: Option<(Vec<u8>, Vec<u8>)>)
    ensures
        match r {
            Some(p) => has_eq(data@) && p.0@ == field_key(data@) && p.1@ == field_value(data@),
            None => !has_eq(data@),
        },
{
    match find_eq(data) {
        Some(i) => {
            let n = data.len();
            proof {
                lemma_first_eq_unique(data@, i as int);
                assert(i < n);
            }
            let key = copy_range(data, 0, i);
            let value = copy_range(data, i + 1, n);
            Some((key, value))
        },
        None => None,
    }
}

/// A buffer assembled as the key, an equals sign, then the value — the
/// shape in which a field goes into the journal — decodes back into
/// exactly that key and value, provided the key holds no equals sign of
/// its own.
pub proof fn lemma_field_round_trip(key: Seq<u8>, value: Seq<u8>)
    requires
        forall|j: int| 0 <= j < key.len() ==> key[j] != eq_byte(),
    ensures
        has_eq(key + seq![eq_byte()] + value),
        field_key(key + seq![eq_byte()] + value) == key,
        field_value(key + seq![eq_byte()] + value) == value,
{
    let buf = key + seq![eq_byte()] + value;
    assert(buf[key.len() as int] == eq_byte());
    assert(forall|j: int| 0 <= j < key.len() ==> buf[j] == key[j]);
    assert(is_first_eq(buf, key.len() as int));
    lemma_first_eq_unique(buf, key.len() as int);
    assert(field_key(buf) =~= key);
    assert(field_value(buf) =~= value);
}

/// The views of a sequence of owned buffers.
pub open spec fn buffer_views(bufs: Seq<Vec<u8>>) -> Seq<Seq<u8>> {
    bufs.map_values(|b: Vec<u8>| b@)
}

/// The views of a sequence of owned key/value pairs.
pub open spec fn pair_views(ps: Seq<(Vec<u8>, Vec<u8>)>) -> Seq<(Seq<u8>, Seq<u8>)> {
    ps.map_values(|p: (Vec<u8>, Vec<u8>)| (p.0@, p.1@))
}

/// The key/value pairs of a run of buffers, in order: each buffer with an
/// equals sign contributes its key and value, the others are skipped.
pub open spec fn parsed_fields(bufs: Seq<Seq<u8>>) -> Seq<(Seq<u8>, Seq<u8>)>
    decreases bufs.len(),
{
    if bufs.len() == 0 {
        Seq::empty()
    } else {
        let rest = parsed_fields(bufs.drop_last());
        if has_eq(bufs.last()) {
            rest.push((field_key(bufs.last()), field_value(bufs.last())))
        } else {
            rest
        }
    }
}

/// Decodes every buffer of one entry into its key/value pairs, keeping the
/// order in which the buffers came.
pub fn parse_entry_fields(bufs: &Vec<Vec<u8>>) -> (pairs: Vec<(Vec<u8>, Vec<u8>)>)
    ensures
        pair_views(pairs@) == parsed_fields(buffer_views(bufs@)),
{
    let views = Ghost(buffer_views(bufs@));
    let mut pairs: Vec<(Vec<u8>, Vec<u8>)> = Vec::new();
    let mut i: usize = 0;
    while i < bufs.len()
        invariant
            i <= bufs@.len(),
            views@ == buffer_views(bufs@),
            pair_views(pairs@) == parsed_fields(views@.take(i as int)),
        decreases bufs@.len() - i,
    {
        let ghost prefix = views@.take(i as int);
        match split_field(bufs[i].as_slice()) {
            Some(p) => {
                pairs.push(p);
            },
            None => {},
        }
        i += 1;
        proof {
            let next = views@.take(i as int);
            assert(next.drop_last() =~= prefix);
            assert(next.last() == bufs@[i - 1]@);
            assert(pair_views(pairs@) =~= parsed_fields(next));
        }
    }
    proof {
        assert(views@.take(i as int) =~= views@);
    }
    pairs
}

} // verus!
