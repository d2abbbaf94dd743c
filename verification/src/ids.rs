//! Allocation of download ids. A fetched track is stored as `<id>.mp3` in
//! the data directory; a fresh id is the smallest non-negative integer not
//! already used by any filed song or any existing local file. The
//! surrounding application lists the directory; this module reads the ids
//! out of the names and picks the smallest free one.

use vstd::prelude::*;

use crate::song::Song;

verus! {

/// A decimal digit (code points of `0` through `9`).
pub open spec fn is_digit(c: char) -> bool {
    48 <= c as u32 <= 57
}

/// The numeric value of one decimal digit.
pub open spec fn digit_val(c: char) -> nat {
    (c as u32 - 48) as nat
}

/// Every character is a decimal digit.
pub open spec fn all_digits(s: Seq<char>) -> bool {
    forall|i: int| 0 <= i < s.len() ==> is_digit(#[trigger] s[i])
}

/// The number a sequence of decimal digits denotes.
pub open spec fn dec_val(s: Seq<char>) -> nat
    decreases s.len(),
{
    if s.len() == 0 {
        0
    } else {
        dec_val(s.drop_last()) * 10 + digit_val(s.last())
    }
}

/// The final component of a path: everything after the last `/`.
pub open spec fn basename(p: Seq<char>) -> Seq<char>
    decreases p.len(),
{
    if p.len() == 0 {
        p
    } else if p.last() == '/' {
        Seq::empty()
    } else {
        basename(p.drop_last()).push(p.last())
    }
}

/// The id under which a local audio file was stored, read from its file
/// name: `<digits>.mp3` names the id the digits denote, as long as it fits
/// a `u64`; any other name names no id.
pub open spec fn mp3_id(name: Seq<char>) -> Option<nat> {
    let stem = name.take(name.len() - 4);
    if name.len() > 4 && name.subrange(name.len() - 4, name.len() as int) == seq![
        '.',
        'm',
        'p',
        '3',
    ] && all_digits(stem) && dec_val(stem) <= u64::MAX {
        Some(dec_val(stem))
    } else {
        None
    }
}

/// The character sequences of a vector of strings.
pub open spec fn views_of(names: Seq<String>) -> Seq<Seq<char>> {
    names.map_values(|s: String| s@)
}

/// An id already taken by one of the first `upto` directory entries.
pub open spec fn dir_id_in(dirs: Seq<Seq<char>>, upto: int, v: nat) -> bool {
    exists|j: int| 0 <= j < upto && mp3_id(#[trigger] dirs[j]) == Some(v)
}

/// Whether song `s` is filed under a local file whose name stores id `v`.
pub open spec fn song_file_id(s: Song, v: nat) -> bool {
    match s@.file {
        Some(f) => mp3_id(basename(f)) == Some(v),
        None => false,
    }
}

/// An id already taken by the local file of one of the first `upto` songs.
pub open spec fn song_id_in(songs: Seq<Song>, upto: int, v: nat) -> bool {
    exists|j: int| 0 <= j < upto && song_file_id(#[trigger] songs[j], v)
}

/// An id already in use: taken by an existing local file or by a filed song.
pub open spec fn id_used(songs: Seq<Song>, dirs: Seq<Seq<char>>, v: nat) -> bool {
    dir_id_in(dirs, dirs.len() as int, v) || song_id_in(songs, songs.len() as int, v)
}

/// The value of a digit prefix never exceeds the value of the whole.
proof fn lemma_dec_val_take_le(s: Seq<char>, j: int)
    requires
        0 <= j <= s.len(),
    ensures
        dec_val(s.take(j)) <= dec_val(s),
    decreases s.len() - j,
{
    if j == s.len() {
        assert(s.take(j) =~= s);
    } else {
        assert(s.take(j + 1).drop_last() =~= s.take(j));
        assert(s.take(j + 1).last() == s[j]);
        assert(dec_val(s.take(j)) <= dec_val(s.take(j + 1)));
        lemma_dec_val_take_le(s, j + 1);
    }
}

/// When nothing from position `k` on is a `/`, and `k` is the start or is
/// preceded by a `/`, the basename is exactly the suffix from `k`.
proof fn lemma_basename_suffix(p: Seq<char>, k: int)
    requires
        0 <= k <= p.len(),
        forall|i: int| k <= i < p.len() ==> p[i] != '/',
        k > 0 ==> p[k - 1] == '/',
    ensures
        basename(p) == p.subrange(k, p.len() as int),
    decreases p.len(),
{
    if p.len() == 0 {
        assert(p.subrange(0, 0) =~= p);
    } else if k == p.len() {
        assert(basename(p) == Seq::<char>::empty());
        assert(p.subrange(k, p.len() as int) =~= Seq::<char>::empty());
    } else {
        assert(p.last() == p[p.len() - 1]);
        lemma_basename_suffix(p.drop_last(), k);
        assert(p.drop_last().subrange(k, p.len() - 1) =~= p.subrange(k, p.len() - 1));
        assert(p.subrange(k, p.len() - 1).push(p[p.len() - 1]) =~= p.subrange(
            k,
            p.len() as int,
        ));
    }
}

/// The final path component of `path`, as [`basename`] describes it.
pub fn basename_of(path: &str) -> (b: String)
    ensures
        b@ == basename(path@),
{
    let n = path.unicode_len();
    let mut k: usize = n;
    while k > 0 && path.get_char(k - 1) != '/'
        invariant
            k <= n,
            n == path@.len(),
            forall|i: int| k <= i < n ==> path@[i] != '/',
        decreases k,
    {
        k -= 1;
    }
    proof {
        lemma_basename_suffix(path@, k as int);
    }
    String::from_str(path.substring_char(k, n))
}

/// Parse a file name of the form `<digits>.mp3` into the id it stores,
/// as [`mp3_id`] describes it.
pub fn mp3_file_id(name: &str) -> (r: Option<u64>)
    ensures
        match r {
            Some(v) => mp3_id(name@) == Some(v as nat),
            None => mp3_id(name@) is None,
        },
{
    let n = name.unicode_len();
    if n <= 4 {
        return None;
    }
    if !(name.get_char(n - 4) == '.' && name.get_char(n - 3) == 'm' && name.get_char(n - 2)
        == 'p' && name.get_char(n - 1) == '3') {
        proof {
            let suffix = name@.subrange(n - 4, n as int);
            assert(suffix[0] == name@[n - 4]);
            assert(suffix[1] == name@[n - 3]);
            assert(suffix[2] == name@[n - 2]);
            assert(suffix[3] == name@[n - 1]);
        }
        return None;
    }
    proof {
        assert(name@.subrange(n - 4, n as int) =~= seq!['.', 'm', 'p', '3']);
    }
    let stem_len = n - 4;
    let ghost stem = name@.take(stem_len as int);
    let mut val: u64 = 0;
    let mut i: usize = 0;
    while i < stem_len
        invariant
            i <= stem_len,
            stem_len == n - 4,
            n == name@.len(),
            n > 4,
            stem == name@.take(stem_len as int),
            all_digits(stem.take(i as int)),
            val == dec_val(stem.take(i as int)),
        decreases stem_len - i,
    {
        let c = name.get_char(i);
        let u = c as u32;
        proof {
            assert(stem[i as int] == name@[i as int]);
        }
        if u < 48 || u > 57 {
            assert(!all_digits(stem));
            return None;
        }
        let d = (u - 48) as u64;
        proof {
            assert(stem.take(i + 1).drop_last() =~= stem.take(i as int));
            assert(stem.take(i + 1).last() == stem[i as int]);
        }
        match val.checked_mul(10) {
            Some(v10) => {
                match v10.checked_add(d) {
                    Some(v) => {
                        val = v;
                    },
                    None => {
                        proof {
                            lemma_dec_val_take_le(stem, i + 1);
                        }
                        return None;
                    },
                }
            },
            None => {
                proof {
                    lemma_dec_val_take_le(stem, i + 1);
                }
                return None;
            },
        }
        proof {
            assert(all_digits(stem.take(i + 1))) by {
                assert(forall|j: int|
                    0 <= j < i ==> stem.take(i + 1)[j] == #[trigger] stem.take(i as int)[j]);
                assert(stem.take(i + 1)[i as int] == stem[i as int]);
            }
        }
        i += 1;
    }
    proof {
        assert(stem.take(stem_len as int) =~= stem);
    }
    Some(val)
}

/// Whether `v` occurs in `used`.
fn used_contains(used: &Vec<u64>, v: u64) -> (r: bool)
    ensures
        r == used@.contains(v),
{
    let n = used.len();
    let mut i: usize = 0;
    while i < n
        invariant
            i <= n,
            n == used@.len(),
            forall|j: int| 0 <= j < i ==> used@[j] != v,
        decreases n - i,
    {
        if used[i] == v {
            return true;
        }
        i += 1;
    }
    false
}

/// The smallest id not already used by any filed song of the playlist or by
/// any file named in the data directory's listing `dir_names`.
pub fn find_smallest_unused_id(playlist: &Vec<Song>, dir_names: &Vec<String>) -> (id: u64)
    ensures
        !id_used(playlist@, views_of(dir_names@), id as nat),
        forall|k: nat|
            k < id ==> #[trigger] id_used(playlist@, views_of(dir_names@), k),
{
    let ghost dirs = views_of(dir_names@);
    let mut used: Vec<u64> = Vec::new();
    let dn = dir_names.len();
    let mut i: usize = 0;
    while i < dn
        invariant
            i <= dn,
            dn == dirs.len(),
            dirs == views_of(dir_names@),
            dn == dir_names@.len(),
            forall|v: u64| #[trigger] used@.contains(v) <==> dir_id_in(dirs, i as int, v as nat),
        decreases dn - i,
    {
        match mp3_file_id(dir_names[i].as_str()) {
            Some(v) => {
                proof {
                    assert(dirs[i as int] == dir_names@[i as int]@);
                    assert forall|w: u64| used@.push(v).contains(w) implies dir_id_in(
                        dirs,
                        i + 1,
                        w as nat,
                    ) by {
                        let j = choose|j: int|
                            0 <= j < used@.push(v).len() && used@.push(v)[j] == w;
                        if j < used@.len() {
                            assert(used@.contains(w));
                        } else {
                            assert(w == v);
                            assert(mp3_id(dirs[i as int]) == Some(w as nat));
                        }
                    }
                    assert forall|w: u64| dir_id_in(dirs, i + 1, w as nat) implies used@.push(
                        v,
                    ).contains(w) by {
                        let j = choose|j: int| 0 <= j < i + 1 && mp3_id(dirs[j]) == Some(w as nat);
                        if j < i {
                            assert(dir_id_in(dirs, i as int, w as nat));
                            assert(used@.contains(w));
                            let jj = choose|jj: int| 0 <= jj < used@.len() && used@[jj] == w;
                            assert(used@.push(v)[jj] == w);
                        } else {
                            assert(mp3_id(dirs[i as int]) == Some(w as nat));
                            assert(w == v);
                            assert(used@.push(v)[used@.len() as int] == v);
                        }
                    }
                }
                used.push(v);
            },
            None => {
                proof {
                    assert(dirs[i as int] == dir_names@[i as int]@);
                    assert forall|w: u64| dir_id_in(dirs, i + 1, w as nat) implies dir_id_in(
                        dirs,
                        i as int,
                        w as nat,
                    ) by {
                        let j = choose|j: int| 0 <= j < i + 1 && mp3_id(dirs[j]) == Some(w as nat);
                        assert(j < i);
                    }
                }
            },
        }
        i += 1;
    }
    let pn = playlist.len();
    let mut p: usize = 0;
    while p < pn
        invariant
            p <= pn,
            pn == playlist@.len(),
            dirs == views_of(dir_names@),
            dn == dirs.len(),
            dn == dir_names@.len(),
            forall|v: u64| #[trigger]
                used@.contains(v) <==> (dir_id_in(dirs, dn as int, v as nat) || song_id_in(
                    playlist@,
                    p as int,
                    v as nat,
                )),
        decreases pn - p,
    {
        let song = &playlist[p];
        let mut found: Option<u64> = None;
        match &song.file {
            Some(f) => {
                let base = basename_of(f.as_str());
                found = mp3_file_id(base.as_str());
            },
            None => {},
        }
        proof {
            match found {
                Some(v) => {
                    assert(song_file_id(playlist@[p as int], v as nat));
                },
                None => {
                    assert(forall|w: nat| !song_file_id(playlist@[p as int], w));
                },
            }
        }
        match found {
            Some(v) => {
                proof {
                    assert forall|w: u64| used@.push(v).contains(w) implies (dir_id_in(
                        dirs,
                        dn as int,
                        w as nat,
                    ) || song_id_in(playlist@, p + 1, w as nat)) by {
                        let j = choose|j: int|
                            0 <= j < used@.push(v).len() && used@.push(v)[j] == w;
                        if j < used@.len() {
                            assert(used@.contains(w));
                            if song_id_in(playlist@, p as int, w as nat) {
                                let jj = choose|jj: int|
                                    0 <= jj < p && song_file_id(#[trigger] playlist@[jj], w as nat);
                                assert(song_id_in(playlist@, p + 1, w as nat));
                            }
                        } else {
                            assert(w == v);
                            assert(song_id_in(playlist@, p + 1, w as nat));
                        }
                    }
                    assert forall|w: u64| (dir_id_in(dirs, dn as int, w as nat) || song_id_in(
                        playlist@,
                        p + 1,
                        w as nat,
                    )) implies used@.push(v).contains(w) by {
                        if dir_id_in(dirs, dn as int, w as nat) || song_id_in(
                            playlist@,
                            p as int,
                            w as nat,
                        ) {
                            assert(used@.contains(w));
                            let jj = choose|jj: int| 0 <= jj < used@.len() && used@[jj] == w;
                            assert(used@.push(v)[jj] == w);
                        } else {
                            let j = choose|j: int|
                                0 <= j < p + 1 && song_file_id(#[trigger] playlist@[j], w as nat);
                            assert(j == p);
                            assert(w == v);
                            assert(used@.push(v)[used@.len() as int] == v);
                        }
                    }
                }
                used.push(v);
            },
            None => {
                proof {
                    assert forall|w: u64| song_id_in(playlist@, p + 1, w as nat) implies (
                    dir_id_in(dirs, dn as int, w as nat) || song_id_in(
                        playlist@,
                        p as int,
                        w as nat,
                    )) by {
                        let j = choose|j: int|
                            0 <= j < p + 1 && song_file_id(#[trigger] playlist@[j], w as nat);
                        if j < p {
                            assert(song_id_in(playlist@, p as int, w as nat));
                        }
                    }
                    assert forall|w: u64| song_id_in(playlist@, p as int, w as nat) implies
                    song_id_in(playlist@, p + 1, w as nat) by {
                        let j = choose|j: int|
                            0 <= j < p && song_file_id(#[trigger] playlist@[j], w as nat);
                        assert(0 <= j < p + 1 && song_file_id(playlist@[j], w as nat));
                    }
                }
            },
        }
        proof {
            assert forall|v2: u64| #[trigger] used@.contains(v2) implies (dir_id_in(
                dirs,
                dn as int,
                v2 as nat,
            ) || song_id_in(playlist@, p as int + 1, v2 as nat)) by {}
            assert forall|v2: u64| (dir_id_in(dirs, dn as int, v2 as nat) || song_id_in(
                playlist@,
                p as int + 1,
                v2 as nat,
            )) implies #[trigger] used@.contains(v2) by {}
        }
        p += 1;
    }
    // Some id in 0 ..= used.len() is free: there are more candidates than
    // entries of `used`.
    let un = used.len();
    let ghost used_ints = used@.map_values(|v: u64| v as int);
    proof {
        used_ints.lemma_cardinality_of_set();
        vstd::seq_lib::seq_to_set_is_finite(used_ints);
        vstd::set_lib::lemma_int_range(0, un as int + 1);
        if forall|x: int|
            0 <= x <= un as int ==> #[trigger] used_ints.to_set().contains(x) {
            assert(vstd::set_lib::set_int_range(0, un as int + 1).subset_of(
                used_ints.to_set(),
            )) by {
                assert forall|x: int|
                    vstd::set_lib::set_int_range(0, un as int + 1).contains(
                        x,
                    ) implies used_ints.to_set().contains(x) by {}
            }
            vstd::set_lib::lemma_len_subset(
                vstd::set_lib::set_int_range(0, un as int + 1),
                used_ints.to_set(),
            );
            assert(false);
        }
        assert(exists|x: int|
            0 <= x <= un as int && !used_ints.to_set().contains(x));
    }
    let ghost free = choose|x: int|
        0 <= x <= un as int && !(#[trigger] used_ints.to_set().contains(x));
    proof {
        assert(!used@.contains(free as u64)) by {
            if used@.contains(free as u64) {
                let j = choose|j: int| 0 <= j < used@.len() && used@[j] == free as u64;
                assert(used_ints[j] == free);
                assert(used_ints.contains(free));
                assert(used_ints.to_set().contains(free));
            }
        }
    }
    let mut id: u64 = 0;
    while used_contains(&used, id)
        invariant
            forall|k: u64| k < id ==> used@.contains(k),
            0 <= free <= un,
            un == used@.len(),
            !used@.contains(free as u64),
            id <= free,
            dirs == views_of(dir_names@),
            forall|v: u64| #[trigger]
                used@.contains(v) <==> id_used(playlist@, dirs, v as nat),
        decreases free - id,
    {
        id += 1;
    }
    proof {
        assert forall|k: nat| k < id implies #[trigger] id_used(playlist@, dirs, k) by {
            let ku = k as u64;
            assert(used@.contains(ku));
            assert(id_used(playlist@, dirs, ku as nat));
        }
    }
    id
}

} // verus!
