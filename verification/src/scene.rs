//! Scene records and the table that maps each scene name to its frame
//! range. Keys are the raw (trimmed) name bytes; a later record with the
//! same name overwrites an earlier one.

use vstd::prelude::*;
use vstd::utf8::{decode_utf8, valid_utf8};

verus! {

/// An inclusive frame range attached to a scene.
#[derive(Clone, Copy, Debug, PartialEq, Eq, Structural)]
pub struct FrameRange {
    /// First frame of the range.
    pub start: i32,
    /// Last frame of the range.
    pub end: i32,
}

impl FrameRange {
    /// The difference `end - start`, exactly as stored: zero, positive, or
    /// (for malformed input) negative.
    pub open spec fn spec_count(self) -> int {
        self.end - self.start
    }

    /// The difference `end - start`, wide enough that no pair of frames can
    /// overflow it.
    pub fn count(&self) -> (r: i64)
        ensures
            r as int == self.spec_count(),
    {
        self.end as i64 - self.start as i64
    }
}

/// One scene found in a file.
#[derive(Debug)]
pub struct SceneRecord {
    /// The scene's name: the 64-byte name field with trailing NULs removed.
    pub name_bytes: Vec<u8>,
    /// The same name decoded as UTF-8.
    pub name: String,
    /// The scene's inclusive frame range.
    pub frames: FrameRange,
    /// The version string of the file the scene came from.
    pub version: String,
}

/// The name bytes are trimmed, at most 64 bytes, valid UTF-8, and agree
/// with the decoded string.
pub open spec fn wf_record(r: SceneRecord) -> bool {
    &&& valid_utf8(r.name_bytes@)
    &&& r.name@ == decode_utf8(r.name_bytes@)
    &&& r.name_bytes@.len() <= 64
    &&& (r.name_bytes@.len() == 0 || r.name_bytes@.last() != 0)
}

/// No two records share a name.
pub open spec fn distinct_names(s: Seq<SceneRecord>) -> bool {
    forall|i: int, j: int|
        0 <= i < j < s.len() ==> (#[trigger] s[i].name_bytes@) != (#[trigger] s[j].name_bytes@)
}

/// The mapping that a sequence of records denotes: each record inserted in
/// order, so a later record with a repeated name wins.
pub open spec fn map_of_records(s: Seq<SceneRecord>) -> Map<Seq<u8>, FrameRange>
    decreases s.len(),
{
    if s.len() == 0 {
        Map::empty()
    } else {
        map_of_records(s.drop_last()).insert(s.last().name_bytes@, s.last().frames)
    }
}

/// A key is in the mapping exactly when some record carries it.
pub proof fn lemma_map_of_records_contains(s: Seq<SceneRecord>, k: Seq<u8>)
    ensures
        map_of_records(s).contains_key(k) <==> exists|i: int|
            0 <= i < s.len() && (#[trigger] s[i].name_bytes@) == k,
    decreases s.len(),
{
    if s.len() > 0 {
        lemma_map_of_records_contains(s.drop_last(), k);
        if s.last().name_bytes@ == k {
            assert(s[s.len() - 1].name_bytes@ == k);
        } else {
            if exists|i: int| 0 <= i < s.len() && (#[trigger] s[i].name_bytes@) == k {
                let i = choose|i: int| 0 <= i < s.len() && (#[trigger] s[i].name_bytes@) == k;
                assert(s.drop_last()[i].name_bytes@ == k);
            }
            if exists|i: int|
                0 <= i < s.drop_last().len() && (#[trigger] s.drop_last()[i].name_bytes@) == k {
                let i = choose|i: int|
                    0 <= i < s.drop_last().len() && (#[trigger] s.drop_last()[i].name_bytes@) == k;
                assert(s[i].name_bytes@ == k);
            }
        }
    }
}

/// With distinct names, the mapping is finite and has one key per record.
pub proof fn lemma_map_of_records_dom_len(s: Seq<SceneRecord>)
    requires
        distinct_names(s),
    ensures
        map_of_records(s).dom().finite(),
        map_of_records(s).dom().len() == s.len(),
    decreases s.len(),
{
    if s.len() > 0 {
        assert(distinct_names(s.drop_last()));
        lemma_map_of_records_dom_len(s.drop_last());
        lemma_map_of_records_contains(s.drop_last(), s.last().name_bytes@);
        assert(!map_of_records(s.drop_last()).contains_key(s.last().name_bytes@));
        vstd::set::axiom_set_insert_len(
            map_of_records(s.drop_last()).dom(),
            s.last().name_bytes@,
        );
        assert(map_of_records(s).dom() =~= map_of_records(s.drop_last()).dom().insert(
            s.last().name_bytes@,
        ));
    }
}

/// With distinct names, every record is present under its own name with its
/// own frame range.
pub proof fn lemma_map_of_records_value(s: Seq<SceneRecord>, i: int)
    requires
        distinct_names(s),
        0 <= i < s.len(),
    ensures
        map_of_records(s).contains_key(s[i].name_bytes@),
        map_of_records(s)[s[i].name_bytes@] == s[i].frames,
    decreases s.len(),
{
    if i == s.len() - 1 {
    } else {
        assert(distinct_names(s.drop_last()));
        assert(s.drop_last()[i] == s[i]);
        lemma_map_of_records_value(s.drop_last(), i);
        assert(s[i].name_bytes@ != s.last().name_bytes@);
    }
}

/// Replacing the record that already carries a name denotes the same
/// mapping as inserting the replacement.
pub proof fn lemma_map_of_records_update(s: Seq<SceneRecord>, i: int, rec: SceneRecord)
    requires
        distinct_names(s),
        0 <= i < s.len(),
        rec.name_bytes@ == s[i].name_bytes@,
    ensures
        map_of_records(s.update(i, rec)) == map_of_records(s).insert(rec.name_bytes@, rec.frames),
    decreases s.len(),
{
    let t = s.update(i, rec);
    if i == s.len() - 1 {
        assert(t.drop_last() =~= s.drop_last());
        assert(t.last() == rec);
        assert(map_of_records(t) =~= map_of_records(s).insert(rec.name_bytes@, rec.frames));
    } else {
        assert(distinct_names(s.drop_last()));
        assert(s.drop_last()[i] == s[i]);
        lemma_map_of_records_update(s.drop_last(), i, rec);
        assert(t.drop_last() =~= s.drop_last().update(i, rec));
        assert(t.last() == s.last());
        assert(s[i].name_bytes@ != s.last().name_bytes@);
        assert(map_of_records(t) =~= map_of_records(s).insert(rec.name_bytes@, rec.frames));
    }
}

/// Whether two byte strings hold the same bytes.
pub(crate) fn bytes_eq(a: &[u8], b: &[u8]) -> (r: bool)
    ensures
        r == (a@ == b@),
{
    if a.len() != b.len() {
        return false;
    }
    let mut i: usize = 0;
    while i < a.len()
        invariant
            0 <= i <= a@.len(),
            a@.len() == b@.len(),
            forall|k: int| 0 <= k < i ==> a@[k] == b@[k],
        decreases a@.len() - i,
    {
        if a[i] != b[i] {
            return false;
        }
        i = i + 1;
    }
    proof {
        assert(a@ =~= b@);
    }
    true
}

/// The mapping from scene name to scene record that one decode builds.
#[derive(Debug)]
pub struct SceneTable {
    /// The records, one per distinct name, in first-seen order.
    pub entries: Vec<SceneRecord>,
}

impl View for SceneTable {
    type V = Map<Seq<u8>, FrameRange>;

    open spec fn view(&self) -> Map<Seq<u8>, FrameRange> {
        map_of_records(self.entries@)
    }
}

impl SceneTable {
    /// Names are pairwise distinct and every record is well formed.
    pub open spec fn wf(self) -> bool {
        &&& distinct_names(self.entries@)
        &&& forall|i: int| 0 <= i < self.entries@.len() ==> wf_record(#[trigger] self.entries@[i])
    }

    /// Every record carries the version string `v`.
    pub open spec fn all_version(self, v: Seq<char>) -> bool {
        forall|i: int|
            0 <= i < self.entries@.len() ==> (#[trigger] self.entries@[i]).version@ == v
    }

    /// The empty table.
    pub fn new() -> (r: SceneTable)
        ensures
            r.wf(),
            r@ == Map::<Seq<u8>, FrameRange>::empty(),
            r.entries@.len() == 0,
    {
        SceneTable { entries: Vec::new() }
    }

    /// How many scenes the table holds.
    pub fn len(&self) -> (r: usize)
        requires
            self.wf(),
        ensures
            r == self@.dom().len(),
            r == self.entries@.len(),
    {
        proof {
            lemma_map_of_records_dom_len(self.entries@);
        }
        self.entries.len()
    }

    /// The record stored under the given (trimmed) name bytes, if any.
    pub fn get(&self, name_bytes: &[u8]) -> (r: Option<&SceneRecord>)
        requires
            self.wf(),
        ensures
            (match r {
                Some(rec) => {
                    &&& self@.contains_key(name_bytes@)
                    &&& rec.name_bytes@ == name_bytes@
                    &&& rec.frames == self@[name_bytes@]
                    &&& wf_record(*rec)
                },
                None => !self@.contains_key(name_bytes@),
            }),
    {
        let n = self.entries.len();
        let mut i: usize = 0;
        while i < n
            invariant
                0 <= i <= n,
                n == self.entries@.len(),
                self.wf(),
                forall|k: int| 0 <= k < i ==> (#[trigger] self.entries@[k].name_bytes@) != name_bytes@,
            decreases n - i,
        {
            if bytes_eq(self.entries[i].name_bytes.as_slice(), name_bytes) {
                proof {
                    lemma_map_of_records_value(self.entries@, i as int);
                }
                return Some(&self.entries[i]);
            }
            i = i + 1;
        }
        proof {
            lemma_map_of_records_contains(self.entries@, name_bytes@);
        }
        None
    }

    /// Inserts the record, overwriting any entry that already carries its
    /// name.
    pub fn upsert(&mut self, rec: SceneRecord)
        requires
            old(self).wf(),
            wf_record(rec),
        ensures
            final(self).wf(),
            final(self)@ == old(self)@.insert(rec.name_bytes@, rec.frames),
            forall|v: Seq<char>|
                old(self).all_version(v) && rec.version@ == v ==> final(self).all_version(v),
    {
        let n = self.entries.len();
        let mut i: usize = 0;
        while i < n
            invariant
                0 <= i <= n,
                n == self.entries@.len(),
                *self == *old(self),
                old(self).wf(),
                wf_record(rec),
                forall|k: int| 0 <= k < i ==> (#[trigger] self.entries@[k].name_bytes@)
                    != rec.name_bytes@,
            decreases n - i,
        {
            if bytes_eq(self.entries[i].name_bytes.as_slice(), rec.name_bytes.as_slice()) {
                proof {
                    lemma_map_of_records_update(self.entries@, i as int, rec);
                }
                let ghost old_entries = self.entries@;
                self.entries[i] = rec;
                proof {
                    assert forall|p: int, q: int| 0 <= p < q < self.entries@.len() implies (
                    #[trigger] self.entries@[p].name_bytes@) != (
                    #[trigger] self.entries@[q].name_bytes@) by {
                        assert(self.entries@[p].name_bytes@ == old_entries[p].name_bytes@);
                        assert(self.entries@[q].name_bytes@ == old_entries[q].name_bytes@);
                    }
                }
                return ;
            }
            i = i + 1;
        }
        proof {
            assert(self.entries@.push(rec).drop_last() =~= self.entries@);
        }
        self.entries.push(rec);
    }
}

} // verus!
