//! Lists of `(key, value)` texts that stand for maps: setting a key replaces its first
//! entry or adds one at the end, and looking a key up reads its first entry.
use vstd::prelude::*;
use crate::text::{owned, same_text};

verus! {

/// The texts of a list of `(key, value)` pairs.
pub open spec fn entries_view(v: Seq<(String, String)>) -> Seq<(Seq<char>, Seq<char>)> {
    v.map_values(|p: (String, String)| (p.0@, p.1@))
}

/// The entries after setting `key` to `value`: the first entry of `key` is replaced, or
/// an entry is added at the end.
pub open spec fn with_entry(st: Seq<(Seq<char>, Seq<char>)>, key: Seq<char>, value: Seq<char>) -> Seq<(Seq<char>, Seq<char>)>
    decreases st.len(),
{
    if st.len() == 0 {
        seq![(key, value)]
    } else if st[0].0 == key {
        seq![(key, value)] + st.skip(1)
    } else {
        seq![st[0]] + with_entry(st.skip(1), key, value)
    }
}

/// The value of the first entry of `key`.
pub open spec fn entry_of(st: Seq<(Seq<char>, Seq<char>)>, key: Seq<char>) -> Option<Seq<char>>
    decreases st.len(),
{
    if st.len() == 0 {
        None
    } else if st[0].0 == key {
        Some(st[0].1)
    } else {
        entry_of(st.skip(1), key)
    }
}

/// Sets `key` to `value` in `entries`.
pub fn set_entry(entries: &mut Vec<(String, String)>, key: &str, value: String)
    ensures
        entries_view(final(entries)@) == with_entry(entries_view(old(entries)@), key@, value@),
{
    let ghost st = entries_view(entries@);
    let ghost mv = value@;
    let mut i: usize = 0;
    assert(st.skip(0) =~= st);
    assert(st.take(0) + with_entry(st, key@, mv) =~= with_entry(st, key@, mv));
    while i < entries.len()
        invariant
            st == entries_view(entries@),
            entries@ == old(entries)@,
            st == entries_view(old(entries)@),
            mv == value@,
            i <= st.len(),
            forall|j: int| 0 <= j < i ==> (#[trigger] st[j]).0 != key@,
            st.take(i as int) + with_entry(st.skip(i as int), key@, mv) == with_entry(st, key@, mv),
        decreases st.len() - i,
    {
        let ghost rest = st.skip(i as int);
        assert(rest[0] == st[i as int]);
        assert(st[i as int] == (entries@[i as int].0@, entries@[i as int].1@));
        if same_text(entries[i].0.as_str(), key) {
            let k = owned(key);
            entries.set(i, (k, value));
            assert(rest.skip(1) =~= st.skip(i + 1));
            assert(with_entry(rest, key@, mv) == seq![(key@, mv)] + rest.skip(1));
            assert(entries_view(entries@) =~= st.take(i as int) + (seq![(key@, mv)] + st.skip(i + 1)));
            return;
        }
        assert(rest.skip(1) =~= st.skip(i + 1));
        assert(with_entry(rest, key@, mv) == seq![st[i as int]] + with_entry(st.skip(i + 1), key@, mv));
        assert(st.take(i + 1) =~= st.take(i as int) + seq![st[i as int]]);
        assert(st.take(i + 1) + with_entry(st.skip(i + 1), key@, mv) =~= st.take(i as int) + (seq![st[i as int]]
            + with_entry(st.skip(i + 1), key@, mv)));
        i = i + 1;
    }
    assert(st.skip(i as int) =~= Seq::<(Seq<char>, Seq<char>)>::empty());
    assert(st.take(i as int) =~= st);
    entries.push((owned(key), value));
    assert(entries_view(entries@) =~= st + seq![(key@, mv)]);
}

/// After setting a key, looking it up gives the value set, and every other key gives
/// what it gave before.
pub proof fn law_entry_read_after_write(st: Seq<(Seq<char>, Seq<char>)>, key: Seq<char>, value: Seq<char>, other: Seq<char>)
    ensures
        entry_of(with_entry(st, key, value), key) == Some(value),
        other != key ==> entry_of(with_entry(st, key, value), other) == entry_of(st, other),
    decreases st.len(),
{
    let w = with_entry(st, key, value);
    if st.len() == 0 {
        assert(w[0] == (key, value));
        assert(w.skip(1) =~= Seq::<(Seq<char>, Seq<char>)>::empty());
        if other != key {
            assert(entry_of(w.skip(1), other) is None);
            assert(entry_of(w, other) == entry_of(w.skip(1), other));
        }
    } else if st[0].0 == key {
        assert(w[0] == (key, value));
        assert(w.skip(1) =~= st.skip(1));
        if other != key {
            assert(entry_of(w, other) == entry_of(w.skip(1), other));
            assert(entry_of(st, other) == entry_of(st.skip(1), other));
        }
    } else {
        law_entry_read_after_write(st.skip(1), key, value, other);
        assert(w[0] == st[0]);
        assert(w.skip(1) =~= with_entry(st.skip(1), key, value));
        if other != key && st[0].0 != other {
            assert(entry_of(w, other) == entry_of(w.skip(1), other));
            assert(entry_of(st, other) == entry_of(st.skip(1), other));
        }
    }
}

} // verus!
