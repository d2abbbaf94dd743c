//! The track record: a song known by its `url`, together with the line
//! format under which the playlist file stores one song per line.

use vstd::prelude::*;

verus! {

/// The separator that joins the fields of a record line. It is reserved:
/// no field value ever contains it.
pub const SEPARATOR: char = '˾';

/// A track. Identity is by `url`; `file` is the local audio path once the
/// track has been fetched, and `None` before that.
pub struct Song {
    pub name: String,
    pub channel: String,
    pub url: String,
    pub file: Option<String>,
}

/// The mathematical value of a [`Song`]: its fields as character sequences.
pub struct SongView {
    pub name: Seq<char>,
    pub channel: Seq<char>,
    pub url: Seq<char>,
    pub file: Option<Seq<char>>,
}

impl View for Song {
    type V = SongView;

    open spec fn view(&self) -> SongView {
        SongView {
            name: self.name@,
            channel: self.channel@,
            url: self.url@,
            file: match self.file {
                Some(f) => Some(f@),
                None => None,
            },
        }
    }
}

impl Clone for Song {
    fn clone(&self) -> (res: Self)
        ensures
            res == *self,
    {
        Song {
            name: self.name.clone(),
            channel: self.channel.clone(),
            url: self.url.clone(),
            file: match &self.file {
                Some(f) => Some(f.clone()),
                None => None,
            },
        }
    }
}

/// `split_from(s, sep, start, i, acc)` walks `s` from position `i`, where
/// `start` is the beginning of the component currently being read and `acc`
/// holds the components already read; it returns all components of `s`.
pub open spec fn split_from(
    s: Seq<char>,
    sep: char,
    start: int,
    i: int,
    acc: Seq<Seq<char>>,
) -> Seq<Seq<char>>
    decreases s.len() - i,
{
    if i >= s.len() {
        acc.push(s.subrange(start, s.len() as int))
    } else if s[i] == sep {
        split_from(s, sep, i + 1, i + 1, acc.push(s.subrange(start, i)))
    } else {
        split_from(s, sep, start, i + 1, acc)
    }
}

/// The components of `s` between occurrences of `sep`. A sequence with no
/// separator is one component; each separator ends a component, and the
/// (possibly empty) tail after the last separator is the final component.
pub open spec fn split_on(s: Seq<char>, sep: char) -> Seq<Seq<char>> {
    split_from(s, sep, 0, 0, Seq::empty())
}

/// The record line that stores a song: the four fields joined by
/// [`SEPARATOR`], with `_` standing for an absent local file.
pub open spec fn spec_serialise(s: SongView) -> Seq<char> {
    s.name + seq![SEPARATOR] + s.channel + seq![SEPARATOR] + s.url + seq![SEPARATOR] + (
    match s.file {
        Some(f) => f,
        None => seq!['_'],
    })
}

/// A record line is well formed when it holds at least the three mandatory
/// fields (name, channel, url).
pub open spec fn wf_record(line: Seq<char>) -> bool {
    split_on(line, SEPARATOR).len() >= 3
}

/// The song a well-formed record line denotes: the first three components
/// are name, channel and url; a fourth component other than `_` is the
/// local file path.
pub open spec fn spec_deserialise(line: Seq<char>) -> SongView {
    let comps = split_on(line, SEPARATOR);
    SongView {
        name: comps[0],
        channel: comps[1],
        url: comps[2],
        file: if comps.len() >= 4 && comps[3] != seq!['_'] {
            Some(comps[3])
        } else {
            None
        },
    }
}

impl Song {
    /// Render this song as one record line for the playlist file.
    pub fn serialise(&self) -> (r: String)
        ensures
            r@ == spec_serialise(self@),
    {
        proof {
            reveal_strlit("˾");
            reveal_strlit("_");
        }
        let mut out = String::from_str(self.name.as_str());
        out.append("˾");
        out.append(self.channel.as_str());
        out.append("˾");
        out.append(self.url.as_str());
        out.append("˾");
        match &self.file {
            Some(f) => out.append(f.as_str()),
            None => out.append("_"),
        }
        proof {
            assert(out@ =~= spec_serialise(self@));
        }
        out
    }

    /// Parse one record line back into a song.
    pub fn deserialise(serial: String) -> (song: Song)
        requires
            wf_record(serial@),
        ensures
            song@ == spec_deserialise(serial@),
    {
        let comps = split_record(serial.as_str());
        let ghost spec_comps = split_on(serial@, SEPARATOR);
        let name = comps[0].clone();
        let channel = comps[1].clone();
        let url = comps[2].clone();
        let file = if comps.len() >= 4 && !(comps[3].as_str().unicode_len() == 1
            && comps[3].as_str().get_char(0) == '_') {
            Some(comps[3].clone())
        } else {
            None
        };
        proof {
            if spec_comps.len() >= 4 {
                assert(comps@[3]@ == seq!['_'] <==> (comps@[3]@.len() == 1 && comps@[3]@[0]
                    == '_')) by {
                    if comps@[3]@.len() == 1 && comps@[3]@[0] == '_' {
                        assert(comps@[3]@ =~= seq!['_']);
                    }
                };
            }
        }
        Song { name, channel, url, file }
    }
}

/// Scanning a separator-free region moves the position without closing a
/// component.
proof fn lemma_split_from_scan(s: Seq<char>, sep: char, start: int, i: int, j: int, acc: Seq<Seq<char>>)
    requires
        0 <= start <= i <= j <= s.len(),
        forall|k: int| i <= k < j ==> s[k] != sep,
    ensures
        split_from(s, sep, start, i, acc) == split_from(s, sep, start, j, acc),
    decreases j - i,
{
    if i < j {
        lemma_split_from_scan(s, sep, start, i + 1, j, acc);
    }
}

/// No field of the song contains the separator — the separator is reserved,
/// so this holds of every record — and a filed path is not the bare `_`
/// sentinel: what a record line needs to parse back to the same song.
pub open spec fn record_fields_ok(s: SongView) -> bool {
    &&& !s.name.contains(SEPARATOR)
    &&& !s.channel.contains(SEPARATOR)
    &&& !s.url.contains(SEPARATOR)
    &&& match s.file {
        Some(f) => !f.contains(SEPARATOR) && f != seq!['_'],
        None => true,
    }
}

/// A record line round-trips: as long as no field contains the separator
/// and a filed path is not the bare `_` sentinel, parsing the serialised
/// record gives back exactly the song that was written.
pub proof fn lemma_serialise_round_trip(s: SongView)
    requires
        record_fields_ok(s),
    ensures
        wf_record(spec_serialise(s)),
        spec_deserialise(spec_serialise(s)) == s,
{
    let line = spec_serialise(s);
    let tail = match s.file {
        Some(f) => f,
        None => seq!['_'],
    };
    let n1 = s.name.len() as int;
    let n2 = s.channel.len() as int;
    let n3 = s.url.len() as int;
    let b1 = n1;  // first separator
    let b2 = n1 + 1 + n2;  // second separator
    let b3 = n1 + 1 + n2 + 1 + n3;  // third separator
    let n = line.len() as int;
    assert(n == b3 + 1 + tail.len());
    assert(line[b1] == SEPARATOR);
    assert(line[b2] == SEPARATOR);
    assert(line[b3] == SEPARATOR);
    assert forall|k: int| 0 <= k < b1 implies line[k] != SEPARATOR by {
        assert(line[k] == s.name[k]);
        assert(s.name[k] != SEPARATOR) by {
            if s.name[k] == SEPARATOR {
                assert(s.name.contains(SEPARATOR));
            }
        }
    }
    assert forall|k: int| b1 + 1 <= k < b2 implies line[k] != SEPARATOR by {
        assert(line[k] == s.channel[k - (b1 + 1)]);
        if s.channel[k - (b1 + 1)] == SEPARATOR {
            assert(s.channel.contains(SEPARATOR));
        }
    }
    assert forall|k: int| b2 + 1 <= k < b3 implies line[k] != SEPARATOR by {
        assert(line[k] == s.url[k - (b2 + 1)]);
        if s.url[k - (b2 + 1)] == SEPARATOR {
            assert(s.url.contains(SEPARATOR));
        }
    }
    assert forall|k: int| b3 + 1 <= k < n implies line[k] != SEPARATOR by {
        assert(line[k] == tail[k - (b3 + 1)]);
        match s.file {
            Some(f) => {
                if f[k - (b3 + 1)] == SEPARATOR {
                    assert(f.contains(SEPARATOR));
                }
            },
            None => {},
        }
    }
    let acc0 = Seq::<Seq<char>>::empty();
    let acc1 = acc0.push(line.subrange(0, b1));
    let acc2 = acc1.push(line.subrange(b1 + 1, b2));
    let acc3 = acc2.push(line.subrange(b2 + 1, b3));
    let comps = acc3.push(line.subrange(b3 + 1, n));
    lemma_split_from_scan(line, SEPARATOR, 0, 0, b1, acc0);
    assert(split_from(line, SEPARATOR, 0, b1, acc0) == split_from(
        line,
        SEPARATOR,
        b1 + 1,
        b1 + 1,
        acc1,
    ));
    lemma_split_from_scan(line, SEPARATOR, b1 + 1, b1 + 1, b2, acc1);
    assert(split_from(line, SEPARATOR, b1 + 1, b2, acc1) == split_from(
        line,
        SEPARATOR,
        b2 + 1,
        b2 + 1,
        acc2,
    ));
    lemma_split_from_scan(line, SEPARATOR, b2 + 1, b2 + 1, b3, acc2);
    assert(split_from(line, SEPARATOR, b2 + 1, b3, acc2) == split_from(
        line,
        SEPARATOR,
        b3 + 1,
        b3 + 1,
        acc3,
    ));
    lemma_split_from_scan(line, SEPARATOR, b3 + 1, b3 + 1, n, acc3);
    assert(split_from(line, SEPARATOR, b3 + 1, n, acc3) == comps);
    assert(split_on(line, SEPARATOR) == comps);
    assert(line.subrange(0, b1) =~= s.name);
    assert(line.subrange(b1 + 1, b2) =~= s.channel);
    assert(line.subrange(b2 + 1, b3) =~= s.url);
    assert(line.subrange(b3 + 1, n) =~= tail);
    assert(comps.len() == 4);
    assert(comps[0] == s.name);
    assert(comps[1] == s.channel);
    assert(comps[2] == s.url);
    assert(comps[3] == tail);
    match s.file {
        Some(f) => {
            assert(spec_deserialise(line).file == Some(f));
        },
        None => {
            assert(comps[3] == seq!['_']);
            assert(spec_deserialise(line).file is None);
        },
    }
}

/// Whether a line is a well-formed record, fit for [`Song::deserialise`].
pub fn is_wf_record(line: &str) -> (b: bool)
    ensures
        b == wf_record(line@),
{
    let comps = split_record(line);
    comps.len() >= 3
}

/// Split a record line into its components, as [`split_on`] describes.
pub fn split_record(s: &str) -> (comps: Vec<String>)
    ensures
        comps@.map_values(|c: String| c@) == split_on(s@, SEPARATOR),
{
    let n = s.unicode_len();
    let mut comps: Vec<String> = Vec::new();
    proof {
        assert(comps@.map_values(|c: String| c@) =~= Seq::<Seq<char>>::empty());
    }
    let mut start: usize = 0;
    let mut i: usize = 0;
    while i < n
        invariant
            start <= i <= n,
            n == s@.len(),
            split_on(s@, SEPARATOR) == split_from(
                s@,
                SEPARATOR,
                start as int,
                i as int,
                comps@.map_values(|c: String| c@),
            ),
        decreases n - i,
    {
        if s.get_char(i) == SEPARATOR {
            let comp = String::from_str(s.substring_char(start, i));
            proof {
                assert(comps@.push(comp).map_values(|c: String| c@) =~= comps@.map_values(
                    |c: String| c@,
                ).push(s@.subrange(start as int, i as int)));
            }
            comps.push(comp);
            start = i + 1;
        }
        i += 1;
    }
    let tail = String::from_str(s.substring_char(start, n));
    proof {
        assert(comps@.push(tail).map_values(|c: String| c@) =~= comps@.map_values(
            |c: String| c@,
        ).push(s@.subrange(start as int, n as int)));
    }
    comps.push(tail);
    comps
}

} // verus!
