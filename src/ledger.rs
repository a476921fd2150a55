//! The subscription ledger: the local paths of the items already confirmed
//! subscribed on the remote service, so that no subscription is asked twice.
//!
//! It is kept on disk as one path per line.

use vstd::prelude::*;
use crate::text::join2;

verus! {

broadcast use vstd::std_specs::vec::group_vec_axioms;

/// The ledger after `path` is marked: unchanged where it is there already,
/// else with `path` added at the end.
pub open spec fn marked(l: Seq<Seq<char>>, path: Seq<char>) -> Seq<Seq<char>> {
    if l.contains(path) {
        l
    } else {
        l.push(path)
    }
}

/// Adds one line of a ledger file; empty lines are skipped.
pub open spec fn add_line(l: Seq<Seq<char>>, line: Seq<char>) -> Seq<Seq<char>> {
    if line.len() == 0 {
        l
    } else {
        marked(l, line)
    }
}

/// Reads `t` up to its end: the ledger of its complete lines, and where the
/// line that is still open starts.
pub open spec fn scan_lines(t: Seq<char>) -> (Seq<Seq<char>>, int)
    decreases t.len(),
{
    if t.len() == 0 {
        (Seq::empty(), 0)
    } else {
        let (l, start) = scan_lines(t.drop_last());
        if t.last() == '\n' {
            (add_line(l, t.subrange(start, t.len() - 1)), t.len() as int)
        } else {
            (l, start)
        }
    }
}

/// The ledger that a file holds: its non-empty lines, each once, in the order
/// of their first appearance.
pub open spec fn ledger_of_text(t: Seq<char>) -> Seq<Seq<char>> {
    let (l, start) = scan_lines(t);
    add_line(l, t.subrange(start, t.len() as int))
}

/// The file of a ledger: each path followed by a line break.
pub open spec fn text_of(l: Seq<Seq<char>>) -> Seq<char>
    decreases l.len(),
{
    if l.len() == 0 {
        Seq::empty()
    } else {
        text_of(l.drop_last()) + l.last() + seq!['\n']
    }
}

/// The set of local paths confirmed subscribed.
#[derive(Debug)]
pub struct SubscriptionLedger {
    paths: Vec<String>,
}

impl View for SubscriptionLedger {
    type V = Seq<Seq<char>>;

    closed spec fn view(&self) -> Seq<Seq<char>> {
        crate::catalog::strings_view(self.paths@)
    }
}

impl SubscriptionLedger {
    /// Each path is held once.
    pub open spec fn wf(&self) -> bool {
        self@.no_duplicates()
    }

    /// An empty ledger, as a missing ledger file reads.
    pub fn new() -> (r: Self)
        ensures
            r.wf(),
            r@ == Seq::<Seq<char>>::empty(),
    {
        let r = SubscriptionLedger { paths: Vec::new() };
        assert(r@ =~= Seq::<Seq<char>>::empty());
        r
    }

    /// The number of paths held.
    pub fn len(&self) -> (r: usize)
        ensures
            r == self@.len(),
    {
        self.paths.len()
    }

    /// Whether `path` is confirmed subscribed.
    pub fn is_subscribed(&self, path: &str) -> (r: bool)
        ensures
            r == self@.contains(path@),
    {
        let p = String::from_str(path);
        let mut i: usize = 0;
        while i < self.paths.len()
            invariant
                p@ == path@,
                i <= self.paths.len(),
                forall|k: int| 0 <= k < i ==> self@[k] != path@,
            decreases self.paths.len() - i,
        {
            if self.paths[i] == p {
                assert(self@[i as int] == path@);
                return true;
            }
            i = i + 1;
        }
        false
    }

    /// Records that `path` is confirmed subscribed.
    pub fn mark_subscribed(&mut self, path: &str)
        ensures
            final(self)@ == marked(old(self)@, path@),
            old(self).wf() ==> final(self).wf(),
    {
        if !self.is_subscribed(path) {
            self.paths.push(String::from_str(path));
            assert(self@ =~= old(self)@.push(path@));
        }
    }

    /// Reads a ledger file.
    pub fn from_text(text: &str) -> (r: Self)
        ensures
            r.wf(),
            r@ == ledger_of_text(text@),
    {
        let mut ledger = SubscriptionLedger::new();
        let n = text.unicode_len();
        let mut start: usize = 0;
        let mut pos: usize = 0;
        while pos < n
            invariant
                n == text@.len(),
                pos <= n,
                start <= pos,
                ledger.wf(),
                (ledger@, start as int) == scan_lines(text@.subrange(0, pos as int)),
            decreases n - pos,
        {
            let c = text.get_char(pos);
            let ghost t = text@.subrange(0, pos + 1);
            assert(t.drop_last() =~= text@.subrange(0, pos as int));
            if c == '\n' {
                let line = text.substring_char(start, pos);
                assert(line@ =~= t.subrange(start as int, t.len() - 1));
                if line.unicode_len() > 0 {
                    ledger.mark_subscribed(line);
                }
                start = pos + 1;
            }
            pos = pos + 1;
        }
        assert(text@.subrange(0, n as int) =~= text@);
        let line = text.substring_char(start, n);
        if line.unicode_len() > 0 {
            ledger.mark_subscribed(line);
        }
        ledger
    }

    /// Writes the ledger file.
    pub fn to_text(&self) -> (r: String)
        ensures
            r@ == text_of(self@),
    {
        let mut r = String::new();
        let mut i: usize = 0;
        while i < self.paths.len()
            invariant
                i <= self.paths.len(),
                r@ == text_of(self@.subrange(0, i as int)),
            decreases self.paths.len() - i,
        {
            let line = join2(self.paths[i].as_str(), "\n");
            r.append(line.as_str());
            proof {
                reveal_strlit("\n");
                let s = self@.subrange(0, i + 1);
                assert(s.drop_last() =~= self@.subrange(0, i as int));
                assert(r@ =~= text_of(s));
            }
            i = i + 1;
        }
        assert(self@.subrange(0, self.paths.len() as int) =~= self@);
        r
    }
}

/// After `path` is marked, it is confirmed subscribed; marking it again
/// changes nothing, so the ledger never holds a path twice.
pub proof fn lemma_mark_idempotent(l: Seq<Seq<char>>, path: Seq<char>)
    requires
        l.no_duplicates(),
    ensures
        marked(l, path).contains(path),
        marked(marked(l, path), path) == marked(l, path),
        marked(l, path).no_duplicates(),
{
    if !l.contains(path) {
        assert(l.push(path)[l.len() as int] == path);
    }
}

/// Reading `t + q`, where `q` holds no line break, leaves the complete lines
/// of `t` as they were.
proof fn lemma_scan_open_line(t: Seq<char>, q: Seq<char>)
    requires
        forall|i: int| 0 <= i < q.len() ==> q[i] != '\n',
    ensures
        scan_lines(t + q) == scan_lines(t),
    decreases q.len(),
{
    if q.len() > 0 {
        let q0 = q.drop_last();
        lemma_scan_open_line(t, q0);
        assert((t + q).drop_last() =~= t + q0);
        assert((t + q).last() == q.last());
    } else {
        assert(t + q =~= t);
    }
}

/// The file that a ledger is written as reads back as that ledger, where its
/// paths are non-empty and hold no line break.
pub proof fn lemma_text_round_trip(l: Seq<Seq<char>>)
    requires
        l.no_duplicates(),
        forall|k: int| 0 <= k < l.len() ==> #[trigger] l[k].len() > 0,
        forall|k: int, i: int| 0 <= k < l.len() && 0 <= i < l[k].len() ==> #[trigger] l[k][i] != '\n',
    ensures
        scan_lines(text_of(l)) == (l, text_of(l).len() as int),
        ledger_of_text(text_of(l)) == l,
    decreases l.len(),
{
    if l.len() == 0 {
        assert(text_of(l) =~= Seq::<char>::empty());
        assert(l =~= Seq::<Seq<char>>::empty());
    } else {
        let prev = l.drop_last();
        let p = l.last();
        assert forall|k: int| 0 <= k < prev.len() implies #[trigger] prev[k].len() > 0 by {
            assert(prev[k] == l[k]);
        }
        assert forall|k: int, i: int| 0 <= k < prev.len() && 0 <= i < prev[k].len() implies #[trigger] prev[k][i]
            != '\n' by {
            assert(prev[k] == l[k]);
        }
        assert(prev.no_duplicates());
        lemma_text_round_trip(prev);
        let t = text_of(prev);
        let full = text_of(l);
        assert(full == t + p + seq!['\n']);
        assert forall|i: int| 0 <= i < p.len() implies p[i] != '\n' by {
            assert(l[l.len() - 1] == p);
        }
        lemma_scan_open_line(t, p);
        assert(full.drop_last() =~= t + p);
        assert(full.last() == '\n');
        assert((t + p).subrange(t.len() as int, (t + p).len() as int) =~= p);
        assert(full.subrange(t.len() as int, full.len() - 1) =~= p);
        assert(!prev.contains(p)) by {
            if prev.contains(p) {
                let k = choose|k: int| 0 <= k < prev.len() && prev[k] == p;
                assert(l[k] == l[l.len() - 1]);
            }
        }
        assert(prev.push(p) =~= l);
        assert(full.subrange(full.len() as int, full.len() as int) =~= Seq::<char>::empty());
    }
}

} // verus!
