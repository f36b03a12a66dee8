use vstd::prelude::*;
use crate::bus::StoreError;
use crate::session::SessionInfo;
use crate::text::push_char;

verus! {

/// Folder of the stored sessions, under the storage root.
pub const SESSION_DIR: &'static str = "session";

/// Folder of the track catalog, under the storage root.
pub const TRACK_DIR: &'static str = "track";

/// Extension of a stored session.
pub const SESSION_EXT: &'static str = "session";

/// Extension of a session's listing entry.
pub const INFO_EXT: &'static str = "info";

/// Extension of a stored track.
pub const TRACK_EXT: &'static str = "track";

/// `a` comes before or equals `b` in character order.
pub open spec fn lex_le(a: Seq<char>, b: Seq<char>) -> bool
    decreases a.len(),
{
    if a.len() == 0 {
        true
    } else if b.len() == 0 {
        false
    } else if a[0] != b[0] {
        (a[0] as u32) < (b[0] as u32)
    } else {
        lex_le(a.drop_first(), b.drop_first())
    }
}

pub open spec fn sorted_texts(s: Seq<String>) -> bool {
    forall|i: int, j: int| 0 <= i < j < s.len() ==> lex_le(#[trigger] s[i]@, #[trigger] s[j]@)
}

pub open spec fn sorted_by_id(s: Seq<SessionInfo>) -> bool {
    forall|i: int, j: int|
        0 <= i < j < s.len() ==> lex_le(#[trigger] s[i].id@, #[trigger] s[j].id@)
}

/// Relies on `slice::sort` on strings: the same strings, in ascending
/// order (strings compare by their UTF-8 bytes, which is the order of
/// their characters).
#[verifier::external_body]
fn sort_texts(v: &mut Vec<String>)
    ensures
        final(v)@.to_multiset() == old(v)@.to_multiset(),
        sorted_texts(final(v)@),
{
    v.sort()
}

/// Relies on `slice::sort_by` comparing the ids: the same entries, in
/// ascending order of id.
#[verifier::external_body]
fn sort_infos_by_id(v: &mut Vec<SessionInfo>)
    ensures
        final(v)@.to_multiset() == old(v)@.to_multiset(),
        sorted_by_id(final(v)@),
{
    v.sort_by(|a, b| a.id.cmp(&b.id))
}

/// The file name `<id>.<ext>`.
pub open spec fn file_name_of(id: Seq<char>, ext: Seq<char>) -> Seq<char> {
    id + seq!['.'] + ext
}

/// The file name `<id>.<ext>`.
pub fn file_name(id: &str, ext: &str) -> (r: String)
    ensures
        r@ == file_name_of(id@, ext@),
{
    let mut s = String::from_str(id);
    push_char(&mut s, '.');
    s.append(ext);
    s
}

/// Whether `name` is `<stem>.<ext>` with a non-empty stem and no dot in
/// `ext`; the stem is then the id.
pub open spec fn has_id(name: Seq<char>, ext: Seq<char>) -> bool {
    let k = name.len() - ext.len() - 1;
    &&& name.len() > ext.len() + 1
    &&& name.subrange(k + 1, name.len() as int) == ext
    &&& name[k] == '.'
    &&& !ext.contains('.')
}

pub open spec fn id_of(name: Seq<char>, ext: Seq<char>) -> Seq<char> {
    name.subrange(0, name.len() - ext.len() - 1)
}

/// Whether `name` ends in `.<ext>` after a non-empty stem.
pub fn has_extension(name: &str, ext: &str) -> (r: bool)
    ensures
        r == has_id(name@, ext@),
{
    let n = name.unicode_len();
    let e = ext.unicode_len();
    let mut j: usize = 0;
    while j < e
        invariant
            e == ext@.len(),
            j <= e,
            forall|i: int| 0 <= i < j ==> ext@[i] != '.',
        decreases e - j,
    {
        if ext.get_char(j) == '.' {
            proof {
                assert(ext@.contains('.'));
            }
            return false;
        }
        j = j + 1;
    }
    if n <= e || n - e < 2 {
        return false;
    }
    let k = n - e - 1;
    if name.get_char(k) != '.' {
        return false;
    }
    let mut i: usize = 0;
    while i < e
        invariant
            n == name@.len(),
            e == ext@.len(),
            k == n - e - 1,
            i <= e,
            forall|m: int| 0 <= m < i ==> name@[k + 1 + m] == ext@[m],
        decreases e - i,
    {
        if name.get_char(k + 1 + i) != ext.get_char(i) {
            proof {
                assert(name@.subrange(k + 1, n as int)[i as int] != ext@[i as int]);
            }
            return false;
        }
        i = i + 1;
    }
    proof {
        assert(name@.subrange(k + 1, n as int) =~= ext@);
    }
    true
}

/// The ids of the file names of a folder that carry extension `ext`.
pub open spec fn ids_in(names: Seq<String>, ext: Seq<char>) -> Seq<Seq<char>>
    decreases names.len(),
{
    if names.len() == 0 {
        seq![]
    } else {
        let rest = ids_in(names.drop_last(), ext);
        if has_id(names.last()@, ext) {
            rest.push(id_of(names.last()@, ext))
        } else {
            rest
        }
    }
}

/// The ids of the entries `names` of a folder that end in `.<ext>`, in
/// ascending order.
pub fn ids(names: &Vec<String>, ext: &str) -> (r: Vec<String>)
    ensures
        texts(r@).to_multiset() == ids_in(names@, ext@).to_multiset(),
        sorted_texts(r@),
{
    let mut found: Vec<String> = Vec::new();
    let mut i: usize = 0;
    while i < names.len()
        invariant
            i <= names@.len(),
            texts(found@) == ids_in(names@.take(i as int), ext@),
        decreases names@.len() - i,
    {
        proof {
            assert(names@.take(i as int + 1).drop_last() =~= names@.take(i as int));
        }
        let name = names[i].as_str();
        if has_extension(name, ext) {
            let k = name.unicode_len() - ext.unicode_len() - 1;
            let stem = name.substring_char(0, k);
            let ghost before = found@;
            found.push(String::from_str(stem));
            proof {
                assert(texts(found@) =~= texts(before).push(id_of(names@[i as int]@, ext@)));
            }
        }
        i = i + 1;
    }
    proof {
        assert(names@.take(names@.len() as int) =~= names@);
    }
    let ghost unsorted = found@;
    sort_texts(&mut found);
    proof {
        lemma_texts_multiset(unsorted, found@);
    }
    found
}

/// The views of a sequence of strings.
pub open spec fn texts(s: Seq<String>) -> Seq<Seq<char>> {
    s.map_values(|t: String| t@)
}

/// Strings in another order have their views in that other order.
pub proof fn lemma_texts_multiset(a: Seq<String>, b: Seq<String>)
    requires
        a.to_multiset() == b.to_multiset(),
    ensures
        texts(a).to_multiset() == texts(b).to_multiset(),
    decreases a.len(),
{
    broadcast use vstd::multiset::group_multiset_axioms;

    if a.len() == 0 {
        vstd::seq_lib::to_multiset_len(a);
        vstd::seq_lib::to_multiset_len(b);
        assert(texts(a) =~= Seq::<Seq<char>>::empty());
        assert(texts(b) =~= Seq::<Seq<char>>::empty());
    } else {
        let x = a.last();
        let a2 = a.drop_last();
        assert(a =~= a2.push(x));
        vstd::seq_lib::to_multiset_build(a2, x);
        vstd::seq_lib::to_multiset_contains(b, x);
        assert(b.to_multiset().count(x) > 0);
        let j = choose|j: int| 0 <= j < b.len() && b[j] == x;
        let b2 = b.remove(j);
        vstd::seq_lib::to_multiset_remove(b, j);
        assert(b2.to_multiset() =~= a2.to_multiset());
        lemma_texts_multiset(a2, b2);
        assert(texts(a) =~= texts(a2).push(x@));
        vstd::seq_lib::to_multiset_build(texts(a2), x@);
        assert(texts(b) =~= texts(b2).insert(j, x@));
        vstd::seq_lib::to_multiset_insert(texts(b2), j, x@);
    }
}

/// The listing of stored sessions: the entries that could be read, in
/// ascending order of id.
pub fn sorted_session_infos(infos: Vec<SessionInfo>) -> (r: Vec<SessionInfo>)
    ensures
        r@.to_multiset() == infos@.to_multiset(),
        sorted_by_id(r@),
{
    let mut v = infos;
    sort_infos_by_id(&mut v);
    v
}

/// The answer to a delete: the first error of removing the listing entry
/// and then the session; the session is only removed once the entry is.
pub fn delete_result(info: Result<(), StoreError>, data: Option<Result<(), StoreError>>) -> (r:
    Result<(), StoreError>)
    requires
        info is Ok <==> data is Some,
    ensures
        r == match info {
            Err(e) => Err(e),
            Ok(_) => data->Some_0,
        },
{
    match info {
        Err(e) => Err(e),
        Ok(()) => match data {
            Some(d) => d,
            None => Ok(()),
        },
    }
}

} // verus!
