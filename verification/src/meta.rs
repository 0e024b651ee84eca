//! Scanning the shared manifest list.
//!
//! The list is an append-only sequence of lines: `---start---` lines are
//! ignored, `---end---` terminates the scan, blank lines are skipped,
//! and every other line names a manifest. Two consumer roles (size
//! accounting and download dispatch) scan the list repeatedly with
//! disjoint flag bits; a name whose bit is already set is never emitted
//! again, which makes repeated passes — and a whole second run — emit
//! nothing new.

use vstd::map::*;
use vstd::prelude::*;
use vstd::string::*;

use crate::text::{str_eq, trim, trim_spec};

verus! {

/// The flag bit of the size-accounting role.
pub const FLAG_ACCOUNT: u64 = 1;

/// The flag bit of the download-dispatch role.
pub const FLAG_DISPATCH: u64 = 2;

/// The flags map as a mathematical map, with absent names at zero.
pub open spec fn flag_of(m: Map<Seq<char>, u64>, name: Seq<char>) -> u64 {
    if m.contains_key(name) {
        m[name]
    } else {
        0
    }
}

/// Which phases have already processed each manifest name: a map from
/// name to a bitmask of completed phases.
pub struct ManifestFlags {
    entries: Vec<(String, u64)>,
}

pub closed spec fn entries_map(s: Seq<(String, u64)>) -> Map<Seq<char>, u64>
    decreases s.len(),
{
    if s.len() == 0 {
        Map::empty()
    } else {
        entries_map(s.drop_last()).insert(s.last().0@, s.last().1)
    }
}

pub closed spec fn entries_unique(s: Seq<(String, u64)>) -> bool {
    forall|i: int, j: int| 0 <= i < j < s.len() ==> s[i].0@ != s[j].0@
}

proof fn lemma_map_absent(s: Seq<(String, u64)>, name: Seq<char>)
    requires
        forall|k: int| 0 <= k < s.len() ==> s[k].0@ != name,
    ensures
        !entries_map(s).contains_key(name),
    decreases s.len(),
{
    if s.len() > 0 {
        lemma_map_absent(s.drop_last(), name);
    }
}

proof fn lemma_map_covers(s: Seq<(String, u64)>, name: Seq<char>)
    ensures
        entries_map(s).contains_key(name) <==> exists|k: int| 0 <= k < s.len() && s[k].0@ == name,
    decreases s.len(),
{
    if s.len() > 0 {
        lemma_map_covers(s.drop_last(), name);
        if s.last().0@ == name {
            assert(s[s.len() - 1].0@ == name);
        } else if entries_map(s).contains_key(name) {
            let k = choose|k: int| 0 <= k < s.drop_last().len() && s.drop_last()[k].0@ == name;
            assert(s[k].0@ == name);
        } else {
            if exists|k: int| 0 <= k < s.len() && s[k].0@ == name {
                let k = choose|k: int| 0 <= k < s.len() && s[k].0@ == name;
                assert(k < s.len() - 1);
                assert(s.drop_last()[k].0@ == name);
            }
        }
    }
}

proof fn lemma_map_found(s: Seq<(String, u64)>, name: Seq<char>, i: int)
    requires
        0 <= i < s.len(),
        s[i].0@ == name,
        forall|j: int| i < j < s.len() ==> s[j].0@ != name,
    ensures
        entries_map(s).contains_key(name),
        entries_map(s)[name] == s[i].1,
    decreases s.len(),
{
    if i == s.len() - 1 {
    } else {
        lemma_map_found(s.drop_last(), name, i);
    }
}

proof fn lemma_map_update(s: Seq<(String, u64)>, i: int, v: u64)
    requires
        entries_unique(s),
        0 <= i < s.len(),
    ensures
        entries_map(s.update(i, (s[i].0, v))) =~= entries_map(s).insert(s[i].0@, v),
    decreases s.len(),
{
    let s2 = s.update(i, (s[i].0, v));
    if i == s.len() - 1 {
        assert(s2.drop_last() =~= s.drop_last());
        assert(entries_map(s2) =~= entries_map(s.drop_last()).insert(s[i].0@, v));
        assert(entries_map(s.drop_last()).insert(s[i].0@, s[i].1).insert(s[i].0@, v)
            =~= entries_map(s.drop_last()).insert(s[i].0@, v));
    } else {
        assert(s2.drop_last() =~= s.drop_last().update(i, (s[i].0, v)));
        assert(entries_unique(s.drop_last()));
        lemma_map_update(s.drop_last(), i, v);
        let key = s[i].0@;
        let lk = s.last().0@;
        assert(key != lk);
        assert(entries_map(s.drop_last()).insert(key, v).insert(lk, s.last().1) =~= entries_map(
            s.drop_last(),
        ).insert(lk, s.last().1).insert(key, v));
    }
}

impl ManifestFlags {
    /// The store is well formed: no name appears twice.
    pub closed spec fn wf(self) -> bool {
        entries_unique(self.entries@)
    }

    /// The flags as a map from manifest name to phase bitmask.
    pub closed spec fn view(&self) -> Map<Seq<char>, u64> {
        entries_map(self.entries@)
    }

    /// An empty flags map: no phase has processed anything.
    pub fn new() -> (r: Self)
        ensures
            r@ == Map::<Seq<char>, u64>::empty(),
            r.wf(),
    {
        ManifestFlags { entries: Vec::new() }
    }

    fn find(&self, name: &String) -> (r: Option<usize>)
        requires
            self.wf(),
        ensures
            match r {
                Some(i) => i < self.entries@.len() && self.entries@[i as int].0@ == name@
                    && entries_map(self.entries@).contains_key(name@) && entries_map(self.entries@)[
                    name@] == self.entries@[i as int].1,
                None => !entries_map(self.entries@).contains_key(name@),
            },
    {
        let n = self.entries.len();
        let mut i: usize = 0;
        while i < n
            invariant
                n == self.entries@.len(),
                0 <= i <= n,
                entries_unique(self.entries@),
                forall|k: int| 0 <= k < i ==> self.entries@[k].0@ != name@,
            decreases n - i,
        {
            if self.entries[i].0.eq(name) {
                proof {
                    lemma_map_found(self.entries@, name@, i as int);
                }
                return Some(i);
            }
            i = i + 1;
        }
        proof {
            lemma_map_absent(self.entries@, name@);
        }
        None
    }

    /// The phase bitmask recorded for `name`; zero when unseen.
    pub fn get(&self, name: &String) -> (r: u64)
        requires
            self.wf(),
        ensures
            r == flag_of(self@, name@),
    {
        match self.find(name) {
            Some(i) => self.entries[i].1,
            None => 0,
        }
    }

    /// Records that the phases in `bits` have processed `name`, on top
    /// of whatever was recorded before.
    pub fn or_bits(&mut self, name: &String, bits: u64)
        requires
            old(self).wf(),
        ensures
            final(self).wf(),
            final(self)@ == old(self)@.insert(name@, flag_of(old(self)@, name@) | bits),
    {
        match self.find(name) {
            Some(i) => {
                let cur = self.entries[i].1;
                let key = self.entries[i].0.clone();
                proof {
                    lemma_map_update(self.entries@, i as int, cur | bits);
                    assert(key@ == self.entries@[i as int].0@);
                }
                self.entries.set(i, (key, cur | bits));
                proof {
                    assert(self.entries@ =~= old(self).entries@.update(
                        i as int,
                        (old(self).entries@[i as int].0, cur | bits),
                    ));
                    assert forall|a: int, b: int|
                        0 <= a < b < self.entries@.len() implies self.entries@[a].0@
                        != self.entries@[b].0@ by {
                        assert(self.entries@[a].0@ == old(self).entries@[a].0@);
                        assert(self.entries@[b].0@ == old(self).entries@[b].0@);
                    };
                }
            },
            None => {
                let ghost olds = self.entries@;
                self.entries.push((name.clone(), 0u64 | bits));
                proof {
                    assert(self.entries@.drop_last() =~= olds);
                    assert(flag_of(entries_map(olds), name@) == 0);
                    assert(0u64 | bits == bits) by (bit_vector);
                    assert(entries_map(self.entries@) =~= entries_map(olds).insert(
                        name@,
                        flag_of(entries_map(olds), name@) | bits,
                    ));
                    lemma_map_covers(olds, name@);
                    assert forall|a: int, b: int|
                        0 <= a < b < self.entries@.len() implies self.entries@[a].0@
                        != self.entries@[b].0@ by {
                        if b == self.entries@.len() - 1 {
                            assert(self.entries@[a].0@ == olds[a].0@);
                            assert(olds[a].0@ != name@);
                        } else {
                            assert(self.entries@[a].0@ == olds[a].0@);
                            assert(self.entries@[b].0@ == olds[b].0@);
                        }
                    };
                }
            },
        }
    }
}

/// What the scanner does with one line of the manifest list.
#[derive(Clone, Copy, Debug, PartialEq, Eq, Structural)]
pub enum LineAction {
    /// A start sentinel, a blank line, or a name this role already
    /// processed.
    Skip,
    /// The end sentinel: the scan terminates.
    Stop,
    /// A fresh manifest name for this role.
    Emit,
}

/// What the scanner does with `line` when the flags stand at `m`: skip
/// sentinels, blanks and already-processed names; stop at the end
/// sentinel; emit fresh names.
pub open spec fn spec_line_action(line: Seq<char>, m: Map<Seq<char>, u64>, flag_status: u64) -> LineAction {
    let t = trim_spec(line);
    if t == "---start---"@ {
        LineAction::Skip
    } else if t == "---end---"@ {
        LineAction::Stop
    } else if t.len() == 0 {
        LineAction::Skip
    } else if flag_of(m, t) & flag_status == flag_status {
        LineAction::Skip
    } else {
        LineAction::Emit
    }
}

/// The outcome of scanning a list of lines: the names emitted, the
/// flags afterwards, and whether the end sentinel was reached.
pub struct ScanResult {
    pub emits: Seq<Seq<char>>,
    pub flags: Map<Seq<char>, u64>,
    pub stopped: bool,
}

/// One whole pass over `lines` for the role `flag_status`, starting
/// from flags `m`: every emitted name has its bit set as it is emitted.
pub open spec fn spec_scan(lines: Seq<Seq<char>>, m: Map<Seq<char>, u64>, flag_status: u64) -> ScanResult
    decreases lines.len(),
{
    if lines.len() == 0 {
        ScanResult { emits: Seq::empty(), flags: m, stopped: false }
    } else {
        let t = trim_spec(lines[0]);
        match spec_line_action(lines[0], m, flag_status) {
            LineAction::Stop => ScanResult { emits: Seq::empty(), flags: m, stopped: true },
            LineAction::Skip => spec_scan(lines.drop_first(), m, flag_status),
            LineAction::Emit => {
                let m2 = m.insert(t, flag_of(m, t) | flag_status);
                let rest = spec_scan(lines.drop_first(), m2, flag_status);
                ScanResult {
                    emits: seq![t] + rest.emits,
                    flags: rest.flags,
                    stopped: rest.stopped,
                }
            },
        }
    }
}

/// The views of a vector of lines.
pub open spec fn line_views(lines: Seq<String>) -> Seq<Seq<char>> {
    Seq::new(lines.len(), |i: int| lines[i]@)
}

fn line_action(line: &String, flags: &ManifestFlags, flag_status: u64) -> (a: LineAction)
    requires
        flags.wf(),
    ensures
        a == spec_line_action(line@, flags@, flag_status),
{
    let t = trim(line.as_str());
    proof {
        reveal_strlit("---start---");
        reveal_strlit("---end---");
    }
    if str_eq(t, "---start---") {
        LineAction::Skip
    } else if str_eq(t, "---end---") {
        LineAction::Stop
    } else if t.unicode_len() == 0 {
        LineAction::Skip
    } else {
        let owned = t.to_owned();
        let cur = flags.get(&owned);
        if cur & flag_status == flag_status {
            LineAction::Skip
        } else {
            LineAction::Emit
        }
    }
}

/// One pass over a snapshot of the manifest list for one role: emits
/// every fresh name (setting its flag bit), skips the rest, and reports
/// whether the end sentinel was reached.
pub fn scan_list(lines: &Vec<String>, flags: &mut ManifestFlags, flag_status: u64) -> (r: (
    Vec<String>,
    bool,
))
    requires
        old(flags).wf(),
    ensures
        final(flags).wf(),
        ({
            let sr = spec_scan(line_views(lines@), old(flags)@, flag_status);
            line_views(r.0@) == sr.emits && final(flags)@ == sr.flags && r.1 == sr.stopped
        }),
{
    let ghost full = spec_scan(line_views(lines@), old(flags)@, flag_status);
    let mut emits: Vec<String> = Vec::new();
    let n = lines.len();
    let mut i: usize = 0;
    proof {
        assert(line_views(lines@).skip(0) =~= line_views(lines@));
        assert(line_views(emits@) =~= Seq::<Seq<char>>::empty());
        assert(full.emits =~= line_views(emits@) + full.emits);
    }
    while i < n
        invariant
            n == lines@.len(),
            0 <= i <= n,
            flags.wf(),
            full == spec_scan(line_views(lines@), old(flags)@, flag_status),
            ({
                let rest = spec_scan(line_views(lines@).skip(i as int), flags@, flag_status);
                full.emits =~= line_views(emits@) + rest.emits && full.flags == rest.flags
                    && full.stopped == rest.stopped
            }),
        decreases n - i,
    {
        let ghost pre_rest = spec_scan(line_views(lines@).skip(i as int), flags@, flag_status);
        proof {
            assert(line_views(lines@).skip(i as int)[0] == lines@[i as int]@);
            assert(line_views(lines@).skip(i as int).drop_first() =~= line_views(lines@).skip(
                i as int + 1,
            ));
        }
        let line = &lines[i];
        match line_action(line, flags, flag_status) {
            LineAction::Stop => {
                proof {
                    assert(pre_rest.emits =~= Seq::<Seq<char>>::empty());
                    assert(pre_rest.stopped);
                    assert(pre_rest.flags == flags@);
                    assert(line_views(emits@) + pre_rest.emits =~= line_views(emits@));
                    assert(full.emits =~= line_views(emits@));
                    assert(full.stopped);
                    assert(full.flags == flags@);
                }
                return (emits, true);
            },
            LineAction::Skip => {},
            LineAction::Emit => {
                let t = trim(line.as_str()).to_owned();
                flags.or_bits(&t, flag_status);
                emits.push(t);
                proof {
                    let rest2 = spec_scan(
                        line_views(lines@).skip(i as int + 1),
                        flags@,
                        flag_status,
                    );
                    assert(line_views(emits@) =~= line_views(emits@.drop_last()) + seq![
                        trim_spec(lines@[i as int]@),
                    ]);
                    assert(line_views(emits@) + rest2.emits =~= line_views(emits@.drop_last()) + (
                    seq![trim_spec(lines@[i as int]@)] + rest2.emits));
                }
            },
        }
        i = i + 1;
    }
    proof {
        assert(line_views(lines@).skip(n as int) =~= Seq::<Seq<char>>::empty());
        assert(line_views(emits@) + Seq::<Seq<char>>::empty() =~= line_views(emits@));
    }
    (emits, false)
}

/// Flag bits only grow across a scan: whatever bits a name had before
/// the pass, it still has after it.
proof fn lemma_scan_flags_monotonic(
    lines: Seq<Seq<char>>,
    m: Map<Seq<char>, u64>,
    flag_status: u64,
    name: Seq<char>,
)
    ensures
        flag_of(spec_scan(lines, m, flag_status).flags, name) | flag_of(m, name) == flag_of(
            spec_scan(lines, m, flag_status).flags,
            name,
        ),
    decreases lines.len(),
{
    let a = flag_of(m, name);
    if lines.len() == 0 {
        assert(a | a == a) by (bit_vector);
    } else {
        let t = trim_spec(lines[0]);
        match spec_line_action(lines[0], m, flag_status) {
            LineAction::Stop => {
                assert(a | a == a) by (bit_vector);
            },
            LineAction::Skip => {
                lemma_scan_flags_monotonic(lines.drop_first(), m, flag_status, name);
            },
            LineAction::Emit => {
                let m2 = m.insert(t, flag_of(m, t) | flag_status);
                lemma_scan_flags_monotonic(lines.drop_first(), m2, flag_status, name);
                let b = flag_of(m2, name);
                let c = flag_of(spec_scan(lines, m, flag_status).flags, name);
                assert(b | a == b) by (bit_vector)
                    requires
                        b == a | flag_status || b == a,
                ;
                assert(c | a == c) by (bit_vector)
                    requires
                        c | b == c,
                        b | a == b,
                ;
            },
        }
    }
}

/// Scanning the same lines again, starting from the flags a first pass
/// left behind, emits nothing: every pass after the first — and a whole
/// second run over the same manifests — is a no-op for the same role.
pub proof fn lemma_scan_second_pass_empty(
    lines: Seq<Seq<char>>,
    m: Map<Seq<char>, u64>,
    flag_status: u64,
)
    ensures
        spec_scan(lines, spec_scan(lines, m, flag_status).flags, flag_status).emits
            == Seq::<Seq<char>>::empty(),
    decreases lines.len(),
{
    if lines.len() == 0 {
    } else {
        let t = trim_spec(lines[0]);
        let sr = spec_scan(lines, m, flag_status);
        match spec_line_action(lines[0], m, flag_status) {
            LineAction::Stop => {
                assert(spec_line_action(lines[0], sr.flags, flag_status) == LineAction::Stop);
            },
            LineAction::Skip => {
                if t != "---start---"@ && t.len() != 0 && t != "---end---"@ {
                    let mv = flag_of(m, t);
                    let sv = flag_of(sr.flags, t);
                    lemma_scan_flags_monotonic(lines.drop_first(), m, flag_status, t);
                    assert(sv & flag_status == flag_status) by (bit_vector)
                        requires
                            mv & flag_status == flag_status,
                            sv | mv == sv,
                    ;
                }
                assert(spec_line_action(lines[0], sr.flags, flag_status) == LineAction::Skip);
                lemma_scan_second_pass_empty(lines.drop_first(), m, flag_status);
            },
            LineAction::Emit => {
                let m2 = m.insert(t, flag_of(m, t) | flag_status);
                let mv0 = flag_of(m, t);
                let mv2 = flag_of(m2, t);
                let sv = flag_of(sr.flags, t);
                lemma_scan_flags_monotonic(lines.drop_first(), m2, flag_status, t);
                assert(mv2 & flag_status == flag_status) by (bit_vector)
                    requires
                        mv2 == mv0 | flag_status,
                ;
                assert(sv & flag_status == flag_status) by (bit_vector)
                    requires
                        mv2 & flag_status == flag_status,
                        sv | mv2 == sv,
                ;
                assert(spec_line_action(lines[0], sr.flags, flag_status) == LineAction::Skip);
                lemma_scan_second_pass_empty(lines.drop_first(), m2, flag_status);
            },
        }
    }
}

/// Appends a name to a newline-joined manifest list blob, trimming the
/// result as the shared-list writer does.
pub fn push_manifest_line(current: &str, name: &str) -> (r: String)
    ensures
        r@ == trim_spec(current@ + "\n"@ + name@),
{
    let mut s = String::new();
    s.append(current);
    s.append("\n");
    s.append(name);
    proof {
        assert(s@ =~= current@ + "\n"@ + name@);
    }
    let t = trim(s.as_str());
    t.to_owned()
}

} // verus!
