use vstd::prelude::*;
use vstd::string::*;
use crate::device::{AudioDevice, DeviceType};

verus! {

/// The first index of `ds` whose device satisfies `p`.
pub open spec fn first_where(ds: Seq<AudioDevice>, p: spec_fn(AudioDevice) -> bool) -> Option<int> {
    if exists|i: int| 0 <= i < ds.len() && p(ds[i]) && (forall|j: int| 0 <= j < i ==> !p(#[trigger] ds[j])) {
        Some(choose|i: int| 0 <= i < ds.len() && p(ds[i]) && (forall|j: int| 0 <= j < i ==> !p(#[trigger] ds[j])))
    } else {
        None
    }
}

proof fn lemma_first_where_found(ds: Seq<AudioDevice>, p: spec_fn(AudioDevice) -> bool, i: int)
    requires
        0 <= i < ds.len(),
        p(ds[i]),
        forall|j: int| 0 <= j < i ==> !p(#[trigger] ds[j]),
    ensures
        first_where(ds, p) == Some(i),
{
    let k = choose|k: int| 0 <= k < ds.len() && p(ds[k]) && (forall|j: int| 0 <= j < k ==> !p(#[trigger] ds[j]));
    if k < i {
        assert(!p(ds[k]));
    } else if k > i {
        assert(!p(ds[i]));
    }
}

/// Where some device satisfies `p`, a first one does.
pub(crate) proof fn lemma_first_where_exists(ds: Seq<AudioDevice>, p: spec_fn(AudioDevice) -> bool, i: int)
    requires
        0 <= i < ds.len(),
        p(ds[i]),
    ensures
        first_where(ds, p) is Some,
    decreases i,
{
    if forall|j: int| 0 <= j < i ==> !p(#[trigger] ds[j]) {
        lemma_first_where_found(ds, p, i);
    } else {
        let j = choose|j: int| 0 <= j < i && p(#[trigger] ds[j]);
        lemma_first_where_exists(ds, p, j);
    }
}

proof fn lemma_first_where_none(ds: Seq<AudioDevice>, p: spec_fn(AudioDevice) -> bool)
    requires
        forall|j: int| 0 <= j < ds.len() ==> !p(#[trigger] ds[j]),
    ensures
        first_where(ds, p) is None,
{
}

/// The device has the given id.
pub open spec fn has_id(id: Seq<char>) -> spec_fn(AudioDevice) -> bool {
    |d: AudioDevice| d.id@ == id
}

/// The device is the default of the given direction.
pub open spec fn is_default_of(t: DeviceType) -> spec_fn(AudioDevice) -> bool {
    |d: AudioDevice| d.device_type == t && d.is_default
}

/// What `str::to_lowercase` makes of a text.
pub uninterp spec fn lower_of(s: Seq<char>) -> Seq<char>;

/// `needle` occurs in `hay` as a contiguous run.
pub open spec fn is_substring(needle: Seq<char>, hay: Seq<char>) -> bool {
    exists|i: int| 0 <= i && i + needle.len() <= hay.len() && #[trigger] hay.subrange(i, i + needle.len()) == needle
}

/// The device's name contains the query, both taken in lower case.
pub open spec fn name_matches(query: Seq<char>) -> spec_fn(AudioDevice) -> bool {
    |d: AudioDevice| is_substring(lower_of(query), lower_of(d.name@))
}

/// Relies on str::to_lowercase: the lower-case form of a text, which depends
/// on the text alone.
#[verifier::external_body]
fn lowercase(s: &str) -> (r: String)
    ensures
        r@ == lower_of(s@),
{
    s.to_lowercase()
}

fn matches_at(hay: &str, needle: &str, at: usize) -> (r: bool)
    requires
        at + needle@.len() <= hay@.len(),
    ensures
        r == (hay@.subrange(at as int, at + needle@.len()) == needle@),
{
    let n: usize = needle.unicode_len();
    let h: usize = hay.unicode_len();
    let mut k: usize = 0;
    while k < n
        invariant
            n == needle@.len(),
            h == hay@.len(),
            at + n <= h,
            k <= n,
            forall|m: int| 0 <= m < k ==> hay@[at + m] == needle@[m],
        decreases n - k,
    {
        if hay.get_char(at + k) != needle.get_char(k) {
            assert(hay@.subrange(at as int, at + n)[k as int] != needle@[k as int]);
            return false;
        }
        k = k + 1;
    }
    assert(hay@.subrange(at as int, at + n) =~= needle@);
    true
}

/// Whether `needle` occurs in `hay`.
pub fn contains_text(hay: &str, needle: &str) -> (r: bool)
    ensures
        r == is_substring(needle@, hay@),
{
    let h: usize = hay.unicode_len();
    let n: usize = needle.unicode_len();
    if n > h {
        return false;
    }
    let mut i: usize = 0;
    while i <= h - n
        invariant
            h == hay@.len(),
            n == needle@.len(),
            n <= h,
            i <= h - n + 1,
            forall|j: int| 0 <= j < i ==> #[trigger] hay@.subrange(j, j + n) != needle@,
        decreases h - n + 1 - i,
    {
        if matches_at(hay, needle, i) {
            return true;
        }
        if i == h - n {
            return false;
        }
        i = i + 1;
    }
    false
}

/// The index of the first device with the given id.
pub fn find_by_id(ds: &Vec<AudioDevice>, id: &String) -> (r: Option<usize>)
    ensures
        r matches Some(i) ==> first_where(ds@, has_id(id@)) == Some(i as int),
        r is None ==> first_where(ds@, has_id(id@)) is None,
{
    let mut i: usize = 0;
    while i < ds.len()
        invariant
            i <= ds@.len(),
            forall|j: int| 0 <= j < i ==> !has_id(id@)(#[trigger] ds@[j]),
        decreases ds@.len() - i,
    {
        if ds[i].id == *id {
            proof {
                lemma_first_where_found(ds@, has_id(id@), i as int);
            }
            return Some(i);
        }
        i = i + 1;
    }
    proof {
        lemma_first_where_none(ds@, has_id(id@));
    }
    None
}

/// The id of the first default device of the given direction.
pub fn find_default(ds: &Vec<AudioDevice>, t: DeviceType) -> (r: Option<usize>)
    ensures
        r matches Some(i) ==> first_where(ds@, is_default_of(t)) == Some(i as int),
        r is None ==> first_where(ds@, is_default_of(t)) is None,
{
    let mut i: usize = 0;
    while i < ds.len()
        invariant
            i <= ds@.len(),
            forall|j: int| 0 <= j < i ==> !is_default_of(t)(#[trigger] ds@[j]),
        decreases ds@.len() - i,
    {
        if ds[i].device_type == t && ds[i].is_default {
            proof {
                lemma_first_where_found(ds@, is_default_of(t), i as int);
            }
            return Some(i);
        }
        i = i + 1;
    }
    proof {
        lemma_first_where_none(ds@, is_default_of(t));
    }
    None
}

/// The index of the first device whose name contains `query`, both taken in
/// lower case.
pub fn find_by_name(ds: &Vec<AudioDevice>, query: &String) -> (r: Option<usize>)
    ensures
        r matches Some(i) ==> first_where(ds@, name_matches(query@)) == Some(i as int),
        r is None ==> first_where(ds@, name_matches(query@)) is None,
{
    let q = lowercase(query.as_str());
    let mut i: usize = 0;
    while i < ds.len()
        invariant
            i <= ds@.len(),
            q@ == lower_of(query@),
            forall|j: int| 0 <= j < i ==> !name_matches(query@)(#[trigger] ds@[j]),
        decreases ds@.len() - i,
    {
        let name = lowercase(ds[i].name.as_str());
        if contains_text(name.as_str(), q.as_str()) {
            proof {
                lemma_first_where_found(ds@, name_matches(query@), i as int);
            }
            return Some(i);
        }
        i = i + 1;
    }
    proof {
        lemma_first_where_none(ds@, name_matches(query@));
    }
    None
}

} // verus!
