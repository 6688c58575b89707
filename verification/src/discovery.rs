use vstd::prelude::*;

verus! {

/// Advertised-name fragments by which Storz & Bickel devices are recognized
/// during a scan.
pub const DEVICE_NAME_PREFIXES: [&'static str; 6] = [
    "STORZ&BICKEL",
    "Storz&Bickel",
    "S&B VOLCANO",
    "S&B VY",  // Venty
    "S&B VZ",  // Veazy
    "S&B CRAFTY",
];

/// `needle` occurs in `hay` starting at position `i`.
pub open spec fn occurs_at(hay: Seq<char>, needle: Seq<char>, i: int) -> bool {
    0 <= i && i + needle.len() <= hay.len() && hay.subrange(i, i + needle.len()) == needle
}

/// `needle` occurs somewhere in `hay` (the empty sequence occurs everywhere).
pub open spec fn seq_contains_seq(hay: Seq<char>, needle: Seq<char>) -> bool {
    exists|i: int| occurs_at(hay, needle, i)
}

/// An advertised name belongs to a Storz & Bickel device when it contains one
/// of the known name fragments.
pub open spec fn is_vaporizer_name_spec(name: Seq<char>) -> bool {
    exists|k: int| 0 <= k < 6 && seq_contains_seq(name, (#[trigger] DEVICE_NAME_PREFIXES[k])@)
}

/// Whether `needle` occurs in `hay` starting at character position `start`,
/// where `m` is the length of `needle` in characters.
fn matches_at(hay: &str, needle: &str, start: usize, m: usize, n: usize) -> (b: bool)
    requires
        m == needle@.len(),
        n == hay@.len(),
        start + m <= n,
    ensures
        b == occurs_at(hay@, needle@, start as int),
{
    let mut k: usize = 0;
    while k < m
        invariant
            m == needle@.len(),
            n == hay@.len(),
            start + m <= n,
            k <= m,
            forall|t: int| 0 <= t < k ==> hay@[start + t] == needle@[t],
        decreases m - k,
    {
        if hay.get_char(start + k) != needle.get_char(k) {
            assert(hay@.subrange(start as int, start + m)[k as int] != needle@[k as int]);
            return false;
        }
        k = k + 1;
    }
    assert(hay@.subrange(start as int, start + m) =~= needle@);
    true
}

/// Whether `needle` occurs as a contiguous run of characters in `hay`.
pub fn contains_str(hay: &str, needle: &str) -> (b: bool)
    ensures
        b == seq_contains_seq(hay@, needle@),
{
    let n = hay.unicode_len();
    let m = needle.unicode_len();
    if m > n {
        assert forall|i: int| !occurs_at(hay@, needle@, i) by {}
        return false;
    }
    if m == 0 {
        assert(hay@.subrange(0, 0) =~= needle@);
        assert(occurs_at(hay@, needle@, 0));
        return true;
    }
    let mut i: usize = 0;
    while i <= n - m
        invariant
            n == hay@.len(),
            m == needle@.len(),
            1 <= m <= n,
            i <= n - m + 1,
            forall|j: int| 0 <= j < i ==> !occurs_at(hay@, needle@, j),
        decreases n - m + 1 - i,
    {
        if matches_at(hay, needle, i, m, n) {
            return true;
        }
        i = i + 1;
    }
    assert forall|j: int| !occurs_at(hay@, needle@, j) by {
        if 0 <= j < i {
        }
    }
    false
}

/// Whether an advertised device name identifies a Storz & Bickel vaporizer:
/// it contains one of `DEVICE_NAME_PREFIXES`.
pub fn is_vaporizer_name(name: &str) -> (b: bool)
    ensures
        b == is_vaporizer_name_spec(name@),
{
    let prefixes = DEVICE_NAME_PREFIXES;
    let mut k: usize = 0;
    while k < 6
        invariant
            k <= 6,
            prefixes == DEVICE_NAME_PREFIXES,
            forall|j: int| 0 <= j < k ==> !seq_contains_seq(name@, (#[trigger] DEVICE_NAME_PREFIXES[j])@),
        decreases 6 - k,
    {
        if contains_str(name, prefixes[k]) {
            return true;
        }
        k = k + 1;
    }
    false
}

/// Entry `i` of a scan result carries an advertised name that identifies a
/// Storz & Bickel vaporizer.
pub open spec fn is_vaporizer_entry(names: Seq<Option<String>>, i: int) -> bool {
    names[i] matches Some(n) && is_vaporizer_name_spec(n@)
}

/// From the advertised names of the peripherals seen in a scan (`None` where
/// a peripheral had no name or its properties could not be read), select the
/// positions of those that are Storz & Bickel vaporizers, in scan order.
pub fn select_vaporizers(names: &Vec<Option<String>>) -> (found: Vec<usize>)
    ensures
        forall|k: int|
            0 <= k < found@.len() ==> (#[trigger] found@[k]) < names@.len()
                && is_vaporizer_entry(names@, found@[k] as int),
        forall|k: int, l: int| 0 <= k < l < found@.len() ==> found@[k] < found@[l],
        forall|i: int|
            0 <= i < names@.len() && is_vaporizer_entry(names@, i) ==> found@.contains(
                i as usize,
            ),
{
    let mut found: Vec<usize> = Vec::new();
    let mut i: usize = 0;
    while i < names.len()
        invariant
            i <= names@.len(),
            forall|k: int|
                0 <= k < found@.len() ==> (#[trigger] found@[k]) < i
                    && is_vaporizer_entry(names@, found@[k] as int),
            forall|k: int, l: int| 0 <= k < l < found@.len() ==> found@[k] < found@[l],
            forall|j: int|
                0 <= j < i && is_vaporizer_entry(names@, j) ==> found@.contains(j as usize),
        decreases names@.len() - i,
    {
        let is_match = match &names[i] {
            Some(n) => is_vaporizer_name(n.as_str()),
            None => false,
        };
        if is_match {
            let ghost before = found@;
            found.push(i);
            assert forall|j: int|
                0 <= j < i + 1 && is_vaporizer_entry(names@, j) implies found@.contains(
                j as usize,
            ) by {
                if j < i {
                    let w = choose|w: int| 0 <= w < before.len() && before[w] == j as usize;
                    assert(found@[w] == j as usize);
                } else {
                    assert(found@[before.len() as int] == j as usize);
                }
            }
        }
        i = i + 1;
    }
    found
}

} // verus!
